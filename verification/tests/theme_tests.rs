use retro_chat::theme::{create_retro_theme, Borders, PaletteEntry, PaletteRole, Rgb};

#[test]
fn retro_theme_has_shadow_simple_borders_and_palette() {
    let look = create_retro_theme();
    assert!(look.shadow);
    assert_eq!(look.borders, Borders::Simple);
    let expect = |role, red, green, blue| PaletteEntry { role, color: Rgb { red, green, blue } };
    assert_eq!(
        look.palette,
        vec![
            expect(PaletteRole::Background, 0, 0, 20),
            expect(PaletteRole::View, 0, 0, 20),
            expect(PaletteRole::Primary, 0, 255, 0),
            expect(PaletteRole::TitlePrimary, 0, 255, 128),
            expect(PaletteRole::Secondary, 255, 191, 0),
            expect(PaletteRole::Highlight, 0, 255, 255),
            expect(PaletteRole::HighlightInactive, 0, 128, 128),
            expect(PaletteRole::Shadow, 0, 0, 40),
        ]
    );
}
