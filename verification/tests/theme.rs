use az::theme::{create_theme, BaseColor, BorderStyle, Color, PaletteColor, PaletteEntry};

#[test]
fn the_dialog_has_simple_borders() {
    assert_eq!(create_theme().borders, BorderStyle::Simple);
}

#[test]
fn the_dialog_has_eight_colours_of_its_own() {
    assert_eq!(
        create_theme().palette,
        vec![
            PaletteEntry { slot: PaletteColor::Background, color: Color::TerminalDefault },
            PaletteEntry { slot: PaletteColor::View, color: Color::TerminalDefault },
            PaletteEntry { slot: PaletteColor::Primary, color: Color::Dark(BaseColor::Blue) },
            PaletteEntry { slot: PaletteColor::Secondary, color: Color::Light(BaseColor::Blue) },
            PaletteEntry { slot: PaletteColor::Tertiary, color: Color::RgbLowRes(5, 1, 5) },
            PaletteEntry { slot: PaletteColor::TitlePrimary, color: Color::RgbLowRes(5, 4, 0) },
            PaletteEntry { slot: PaletteColor::Highlight, color: Color::RgbLowRes(5, 5, 0) },
            PaletteEntry {
                slot: PaletteColor::HighlightInactive,
                color: Color::RgbLowRes(3, 3, 0),
            },
        ]
    );
}

#[test]
fn every_low_resolution_colour_is_in_range() {
    for entry in create_theme().palette {
        if let Color::RgbLowRes(red, green, blue) = entry.color {
            assert!(red <= 5 && green <= 5 && blue <= 5);
        }
    }
}

#[test]
fn no_part_of_the_screen_is_coloured_twice() {
    let palette = create_theme().palette;
    for i in 0..palette.len() {
        for j in (i + 1)..palette.len() {
            assert_ne!(palette[i].slot, palette[j].slot);
        }
    }
}
