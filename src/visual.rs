use vstd::prelude::*;

verus! {

/// A map of the smallmap crate.
#[verifier::external_type_specification]
#[verifier::external_body]
#[verifier::reject_recursive_types(K)]
#[verifier::reject_recursive_types(V)]
pub struct ExSmallMap<K, V>(smallmap::Map<K, V>);

/// Channel layout of a direct-colour picture format.
#[derive(Clone, Copy, Debug, PartialEq, Eq, Structural)]
pub struct DirectFormat {
    pub red_shift: u16,
    pub red_mask: u16,
    pub green_shift: u16,
    pub green_mask: u16,
    pub blue_shift: u16,
    pub blue_mask: u16,
    pub alpha_shift: u16,
    pub alpha_mask: u16,
}

/// A picture format the server offers; `direct` tells a direct-colour one.
#[derive(Clone, Copy, Debug, PartialEq, Eq, Structural)]
pub struct PictFormatInfo {
    pub id: u32,
    pub direct: bool,
    pub depth: u8,
    pub direct_format: DirectFormat,
}

/// A visual of a screen and the picture format that goes with it.
#[derive(Clone, Copy, Debug, PartialEq, Eq, Structural)]
pub struct PictVisual {
    pub visual: u32,
    pub format: u32,
}

/// The visuals of one depth of a screen.
#[derive(Debug)]
pub struct PictDepth {
    pub depth: u8,
    pub visuals: Vec<PictVisual>,
}

/// The depths of one screen.
#[derive(Debug)]
pub struct PictScreen {
    pub depths: Vec<PictDepth>,
}

/// A visual usable for rendering: its id, picture format and channel layout.
#[derive(Clone, Copy, Debug, PartialEq, Eq, Structural)]
pub struct VisualInfo {
    pub id: u32,
    pub pict_format: u32,
    pub direct_format: DirectFormat,
    pub depth: u8,
}

/// Visual class of a true-colour visual.
pub const TRUE_COLOR: u8 = 4;

/// Visual class of a direct-colour visual.
pub const DIRECT_COLOR: u8 = 5;

/// A visual of the screen as the connection setup describes it.
#[derive(Clone, Copy, Debug, PartialEq, Eq, Structural)]
pub struct VisualType {
    pub visual_id: u32,
    pub class: u8,
    pub bits_per_rgb_value: u8,
    pub colormap_entries: u16,
    pub red_mask: u32,
    pub green_mask: u32,
    pub blue_mask: u32,
}

/// The visuals the screen allows at one depth.
#[derive(Debug)]
pub struct ScreenDepth {
    pub depth: u8,
    pub visuals: Vec<VisualType>,
}

/// Why no visual could be chosen.
#[derive(Clone, Copy, Debug, PartialEq, Eq, Structural)]
pub enum VisualError {
    NoAppropriateVisual,
    NotTrueOrDirect(VisualType),
}

/// The first visual with id `id` at or after index `i`.
pub open spec fn visual_index(vs: Seq<VisualType>, id: u32, i: int) -> Option<int>
    decreases vs.len() - i,
{
    if i < 0 || i >= vs.len() {
        None
    } else if vs[i].visual_id == id {
        Some(i)
    } else {
        visual_index(vs, id, i + 1)
    }
}

/// The visual with id `id` and its depth: found in the first depth, at or
/// after index `i`, that has it.
pub open spec fn visual_with_id(ds: Seq<ScreenDepth>, id: u32, i: int) -> Option<(u8, VisualType)>
    decreases ds.len() - i,
{
    if i < 0 || i >= ds.len() {
        None
    } else {
        match visual_index(ds[i].visuals@, id, 0) {
            Some(k) => Some((ds[i].depth, ds[i].visuals@[k])),
            None => visual_with_id(ds, id, i + 1),
        }
    }
}

/// Direct-colour formats by picture format id.
pub type FormatTable = smallmap::Map<u32, DirectFormat>;

/// The entries of a table of picture formats.
pub uninterp spec fn format_table(m: FormatTable) -> Map<u32, DirectFormat>;

/// Relies on `smallmap::Map::new`: a new map holds no entry.
#[verifier::external_body]
fn new_format_table() -> (r: FormatTable)
    ensures
        format_table(r).dom() == Set::<u32>::empty(),
{
    smallmap::Map::new()
}

/// Relies on `smallmap::Map::insert`: afterwards `key` maps to `value`, and
/// every other key to what it did before.
#[verifier::external_body]
fn insert_format(m: &mut FormatTable, key: u32, value: DirectFormat)
    ensures
        format_table(*final(m)) == format_table(*old(m)).insert(key, value),
{
    m.insert(key, value);
}

/// Relies on `smallmap::Map::get`: the value of `key`, if the map has one.
#[verifier::external_body]
fn lookup_format(m: &FormatTable, key: u32) -> (r: Option<DirectFormat>)
    ensures
        r == if format_table(*m).contains_key(key) {
            Some(format_table(*m)[key])
        } else {
            None::<DirectFormat>
        },
{
    m.get(&key).copied()
}

/// The direct-colour formats of depth `depth`, by id; of formats with the
/// same id the last one counts.
pub open spec fn candidates(formats: Seq<PictFormatInfo>, depth: u8) -> Map<u32, DirectFormat>
    decreases formats.len(),
{
    if formats.len() == 0 {
        Map::empty()
    } else {
        let prev = candidates(formats.drop_last(), depth);
        let f = formats.last();
        if f.direct && f.depth == depth {
            prev.insert(f.id, f.direct_format)
        } else {
            prev
        }
    }
}

/// A visual is usable if its format is a candidate and, when an id is
/// asked for, it has that id.
pub open spec fn visual_fits(v: PictVisual, cands: Map<u32, DirectFormat>, id: Option<u32>) -> bool {
    &&& cands.contains_key(v.format)
    &&& id matches Some(want) ==> v.visual == want
}

/// The first usable visual at or after index `i`.
pub open spec fn first_fit(
    vs: Seq<PictVisual>,
    cands: Map<u32, DirectFormat>,
    id: Option<u32>,
    i: int,
) -> Option<int>
    decreases vs.len() - i,
{
    if i < 0 || i >= vs.len() {
        None
    } else if visual_fits(vs[i], cands, id) {
        Some(i)
    } else {
        first_fit(vs, cands, id, i + 1)
    }
}

/// The first entry of depth `depth` at or after index `i`.
pub open spec fn first_depth(ds: Seq<PictDepth>, depth: u8, i: int) -> Option<int>
    decreases ds.len() - i,
{
    if i < 0 || i >= ds.len() {
        None
    } else if ds[i].depth == depth {
        Some(i)
    } else {
        first_depth(ds, depth, i + 1)
    }
}

/// The visual a screen offers: the first usable one of its first entry of
/// the wanted depth.
pub open spec fn screen_pick(
    s: PictScreen,
    cands: Map<u32, DirectFormat>,
    depth: u8,
    id: Option<u32>,
) -> Option<PictVisual> {
    match first_depth(s.depths@, depth, 0) {
        Some(d) => {
            let vs = s.depths@[d].visuals@;
            match first_fit(vs, cands, id, 0) {
                Some(v) => Some(vs[v]),
                None => None,
            }
        },
        None => None,
    }
}

/// The visual of the first screen at or after index `i` that offers one.
pub open spec fn pick_from(
    screens: Seq<PictScreen>,
    cands: Map<u32, DirectFormat>,
    depth: u8,
    id: Option<u32>,
    i: int,
) -> Option<PictVisual>
    decreases screens.len() - i,
{
    if i < 0 || i >= screens.len() {
        None
    } else {
        match screen_pick(screens[i], cands, depth, id) {
            Some(v) => Some(v),
            None => pick_from(screens, cands, depth, id, i + 1),
        }
    }
}

fn first_depth_index(depths: &Vec<PictDepth>, depth: u8) -> (r: Option<usize>)
    ensures
        r matches Some(k) ==> k < depths@.len() && first_depth(depths@, depth, 0) == Some(k as int),
        r is None ==> first_depth(depths@, depth, 0) is None,
{
    let mut i: usize = 0;
    while i < depths.len()
        invariant
            i <= depths@.len(),
            first_depth(depths@, depth, 0) == first_depth(depths@, depth, i as int),
        decreases depths@.len() - i,
    {
        if depths[i].depth == depth {
            return Some(i);
        }
        i = i + 1;
    }
    None
}

fn first_fitting_visual(
    visuals: &Vec<PictVisual>,
    table: &FormatTable,
    id: Option<u32>,
) -> (r: Option<(usize, DirectFormat)>)
    ensures
        r matches Some((k, f)) ==> k < visuals@.len() && first_fit(
            visuals@,
            format_table(*table),
            id,
            0,
        ) == Some(k as int) && format_table(*table).contains_key(visuals@[k as int].format)
            && f == format_table(*table)[visuals@[k as int].format],
        r is None ==> first_fit(visuals@, format_table(*table), id, 0) is None,
{
    let ghost cands = format_table(*table);
    let mut i: usize = 0;
    while i < visuals.len()
        invariant
            cands == format_table(*table),
            i <= visuals@.len(),
            first_fit(visuals@, cands, id, 0) == first_fit(visuals@, cands, id, i as int),
        decreases visuals@.len() - i,
    {
        let v = visuals[i];
        let wanted = match id {
            Some(want) => v.visual == want,
            None => true,
        };
        if let Some(f) = lookup_format(table, v.format) {
            if wanted {
                return Some((i, f));
            }
        }
        i = i + 1;
    }
    None
}

fn visual_index_of(visuals: &Vec<VisualType>, id: u32) -> (r: Option<usize>)
    ensures
        r matches Some(k) ==> k < visuals@.len() && visual_index(visuals@, id, 0) == Some(k as int),
        r is None ==> visual_index(visuals@, id, 0) is None,
{
    let mut i: usize = 0;
    while i < visuals.len()
        invariant
            i <= visuals@.len(),
            visual_index(visuals@, id, 0) == visual_index(visuals@, id, i as int),
        decreases visuals@.len() - i,
    {
        if visuals[i].visual_id == id {
            return Some(i);
        }
        i = i + 1;
    }
    None
}

/// The root visual `id` of a screen and its depth, if it is a true- or
/// direct-colour visual (see `visual_with_id`).
pub fn find_visual_type(allowed_depths: &Vec<ScreenDepth>, id: u32) -> (r: Result<
    (u8, VisualType),
    VisualError,
>)
    ensures
        match visual_with_id(allowed_depths@, id, 0) {
            Some((depth, v)) => if v.class == TRUE_COLOR || v.class == DIRECT_COLOR {
                r == Ok::<(u8, VisualType), VisualError>((depth, v))
            } else {
                r == Err::<(u8, VisualType), VisualError>(VisualError::NotTrueOrDirect(v))
            },
            None => r == Err::<(u8, VisualType), VisualError>(VisualError::NoAppropriateVisual),
        },
{
    let mut i: usize = 0;
    while i < allowed_depths.len()
        invariant
            i <= allowed_depths@.len(),
            visual_with_id(allowed_depths@, id, 0) == visual_with_id(allowed_depths@, id, i as int),
        decreases allowed_depths@.len() - i,
    {
        let d = &allowed_depths[i];
        if let Some(k) = visual_index_of(&d.visuals, id) {
            let v = d.visuals[k];
            if v.class == TRUE_COLOR || v.class == DIRECT_COLOR {
                return Ok((d.depth, v));
            } else {
                return Err(VisualError::NotTrueOrDirect(v));
            }
        }
        i = i + 1;
    }
    Err(VisualError::NoAppropriateVisual)
}

impl VisualInfo {
    /// Chooses a visual of depth `depth` (and id `id`, if given) whose
    /// picture format is a direct-colour format of that depth: the first
    /// usable visual of the first entry of that depth, on the first screen
    /// that has one.
    pub fn find_appropriate_visual(
        formats: &Vec<PictFormatInfo>,
        screens: &Vec<PictScreen>,
        depth: u8,
        id: Option<u32>,
    ) -> (r: Result<VisualInfo, VisualError>)
        ensures
            ({
                let cands = candidates(formats@, depth);
                match pick_from(screens@, cands, depth, id, 0) {
                    Some(v) => r == Ok::<VisualInfo, VisualError>(
                        VisualInfo {
                            id: v.visual,
                            pict_format: v.format,
                            direct_format: cands[v.format],
                            depth,
                        },
                    ),
                    None => r == Err::<VisualInfo, VisualError>(VisualError::NoAppropriateVisual),
                }
            }),
    {
        let mut table = new_format_table();
        let mut i: usize = 0;
        proof {
            assert(formats@.take(0) =~= Seq::<PictFormatInfo>::empty());
            assert(format_table(table) =~= candidates(formats@.take(0), depth));
        }
        while i < formats.len()
            invariant
                i <= formats@.len(),
                format_table(table) == candidates(formats@.take(i as int), depth),
            decreases formats@.len() - i,
        {
            proof {
                assert(formats@.take(i as int + 1).drop_last() =~= formats@.take(i as int));
            }
            let f = formats[i];
            if f.direct && f.depth == depth {
                insert_format(&mut table, f.id, f.direct_format);
            }
            i = i + 1;
        }
        proof {
            assert(formats@.take(formats@.len() as int) =~= formats@);
        }
        let ghost cands = candidates(formats@, depth);
        let mut s: usize = 0;
        while s < screens.len()
            invariant
                format_table(table) == cands,
                cands == candidates(formats@, depth),
                s <= screens@.len(),
                pick_from(screens@, cands, depth, id, 0) == pick_from(
                    screens@,
                    cands,
                    depth,
                    id,
                    s as int,
                ),
            decreases screens@.len() - s,
        {
            let screen = &screens[s];
            let ghost sc = screens@[s as int];
            assert(screen.depths@ == sc.depths@);
            let found = first_depth_index(&screen.depths, depth);
            match found {
                Some(d) => {
                    let visuals = &screen.depths[d].visuals;
                    assert(visuals@ == sc.depths@[d as int].visuals@);
                    assert(first_depth(sc.depths@, depth, 0) == Some(d as int));
                    let fit = first_fitting_visual(visuals, &table, id);
                    match fit {
                        Some((k, direct_format)) => {
                            let c = visuals[k];
                            assert(screen_pick(sc, cands, depth, id) == Some(c));
                            return Ok(
                                VisualInfo {
                                    id: c.visual,
                                    pict_format: c.format,
                                    direct_format,
                                    depth,
                                },
                            );
                        },
                        None => {
                            assert(first_fit(visuals@, cands, id, 0) is None);
                            assert(screen_pick(sc, cands, depth, id) is None);
                        },
                    }
                },
                None => {
                    assert(screen_pick(sc, cands, depth, id) is None);
                },
            }
            s = s + 1;
        }
        Err(VisualError::NoAppropriateVisual)
    }
}

} // verus!
