use mevi::visual::{
    find_visual_type, DirectFormat, PictDepth, PictFormatInfo, PictScreen, PictVisual,
    ScreenDepth, VisualError, VisualInfo, VisualType, DIRECT_COLOR, TRUE_COLOR,
};

fn layout(alpha_mask: u16) -> DirectFormat {
    DirectFormat {
        red_shift: 16,
        red_mask: 0xff,
        green_shift: 8,
        green_mask: 0xff,
        blue_shift: 0,
        blue_mask: 0xff,
        alpha_shift: 24,
        alpha_mask,
    }
}

fn format(id: u32, direct: bool, depth: u8, alpha_mask: u16) -> PictFormatInfo {
    PictFormatInfo { id, direct, depth, direct_format: layout(alpha_mask) }
}

fn depth(depth: u8, visuals: &[(u32, u32)]) -> PictDepth {
    PictDepth {
        depth,
        visuals: visuals.iter().map(|&(visual, format)| PictVisual { visual, format }).collect(),
    }
}

fn formats() -> Vec<PictFormatInfo> {
    vec![
        format(1, true, 24, 0),
        format(2, false, 24, 0),
        format(3, true, 32, 0xff),
        format(4, true, 8, 0xff),
    ]
}

#[test]
fn root_visual_with_direct_format() {
    let screens = vec![PictScreen {
        depths: vec![depth(24, &[(0x21, 2), (0x22, 1), (0x23, 1)]), depth(32, &[(0x40, 3)])],
    }];
    let found = VisualInfo::find_appropriate_visual(&formats(), &screens, 24, Some(0x23));
    assert_eq!(
        found,
        Ok(VisualInfo { id: 0x23, pict_format: 1, direct_format: layout(0), depth: 24 })
    );
    let found = VisualInfo::find_appropriate_visual(&formats(), &screens, 24, None);
    assert_eq!(
        found,
        Ok(VisualInfo { id: 0x22, pict_format: 1, direct_format: layout(0), depth: 24 })
    );
}

#[test]
fn render_visual_on_a_later_screen() {
    let screens = vec![
        PictScreen { depths: vec![depth(24, &[(0x22, 1)])] },
        PictScreen { depths: vec![depth(32, &[(0x40, 2), (0x41, 3)])] },
    ];
    let found = VisualInfo::find_appropriate_visual(&formats(), &screens, 32, None);
    assert_eq!(
        found,
        Ok(VisualInfo { id: 0x41, pict_format: 3, direct_format: layout(0xff), depth: 32 })
    );
}

#[test]
fn only_first_entry_of_a_depth_is_searched() {
    let screens = vec![PictScreen {
        depths: vec![depth(32, &[(0x40, 2)]), depth(32, &[(0x41, 3)])],
    }];
    let found = VisualInfo::find_appropriate_visual(&formats(), &screens, 32, None);
    assert_eq!(found, Err(VisualError::NoAppropriateVisual));
}

#[test]
fn no_visual_of_wanted_id() {
    let screens = vec![PictScreen { depths: vec![depth(24, &[(0x22, 1)])] }];
    let found = VisualInfo::find_appropriate_visual(&formats(), &screens, 24, Some(0x99));
    assert_eq!(found, Err(VisualError::NoAppropriateVisual));
    let found = VisualInfo::find_appropriate_visual(&vec![], &screens, 24, None);
    assert_eq!(found, Err(VisualError::NoAppropriateVisual));
}

#[test]
fn later_format_of_same_id_wins() {
    let mut fs = formats();
    fs.push(format(1, true, 24, 0x0f));
    let screens = vec![PictScreen { depths: vec![depth(24, &[(0x22, 1)])] }];
    let found = VisualInfo::find_appropriate_visual(&fs, &screens, 24, None);
    assert_eq!(
        found,
        Ok(VisualInfo { id: 0x22, pict_format: 1, direct_format: layout(0x0f), depth: 24 })
    );
}

fn visual_type(visual_id: u32, class: u8) -> VisualType {
    VisualType {
        visual_id,
        class,
        bits_per_rgb_value: 8,
        colormap_entries: 256,
        red_mask: 0xff0000,
        green_mask: 0xff00,
        blue_mask: 0xff,
    }
}

fn allowed_depths() -> Vec<ScreenDepth> {
    vec![
        ScreenDepth { depth: 1, visuals: vec![] },
        ScreenDepth { depth: 24, visuals: vec![visual_type(0x20, TRUE_COLOR), visual_type(0x21, DIRECT_COLOR)] },
        ScreenDepth { depth: 32, visuals: vec![visual_type(0x21, TRUE_COLOR), visual_type(0x30, 3)] },
    ]
}

#[test]
fn root_visual_is_found_in_first_depth_that_has_it() {
    assert_eq!(find_visual_type(&allowed_depths(), 0x20), Ok((24, visual_type(0x20, TRUE_COLOR))));
    assert_eq!(find_visual_type(&allowed_depths(), 0x21), Ok((24, visual_type(0x21, DIRECT_COLOR))));
}

#[test]
fn root_visual_must_be_true_or_direct_color() {
    assert_eq!(
        find_visual_type(&allowed_depths(), 0x30),
        Err(VisualError::NotTrueOrDirect(visual_type(0x30, 3)))
    );
    assert_eq!(find_visual_type(&allowed_depths(), 0x99), Err(VisualError::NoAppropriateVisual));
}
