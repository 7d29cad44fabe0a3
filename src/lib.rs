//! A minimal image viewer core: placement geometry, text layout and glyph
//! shaping, the compositing of text into render pictures, the redraw
//! pipeline and the overlay menu, all expressed as pure functions from
//! state to protocol requests that a connection then performs.

/// Centring and clipping an image in a window.
pub mod geometry;
/// The protocol requests the viewer sends, and their mathematical values.
pub mod request;
/// Fonts as glyph tables: measuring, shaping into runs, glyph elements.
pub mod font;
/// Shaped lines of text laid out with gaps and padding.
pub mod render_string;
/// Drawing a laid-out string into a pair of render pictures.
pub mod compositor;
/// Classifying server events into what they mean to the viewer.
pub mod event;
/// The overlay menu: layout, selection, visibility and drawing.
pub mod menu;
/// The viewer: its state, the redraw pipeline and event handling.
pub mod viewer;
/// The lines of text that describe the shown image.
pub mod image_info;
/// Choosing the visuals and picture formats to render with.
pub mod visual;
