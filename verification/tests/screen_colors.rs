use xfce4_terminal::screen_colors::{
    color_plan, palette_entries, palette_valid, ColorInputs, ColorReadability, ColorSource,
    DEFAULT_PALETTE,
};

/// A color text reads when it is `#` and six hexadecimal digits, which is all
/// the texts below need.
fn reads(text: &Option<String>) -> bool {
    text.as_deref().map_or(false, |t| {
        t.len() == 7 && t.starts_with('#') && t[1..].chars().all(|c| c.is_ascii_hexdigit())
    })
}

fn readability(inputs: &ColorInputs) -> ColorReadability {
    let palette = inputs.palette.as_deref().map_or(false, |p| {
        let readable: Vec<bool> = palette_entries(p).into_iter().map(|e| reads(&Some(e))).collect();
        palette_valid(&readable)
    });
    ColorReadability {
        palette,
        foreground: reads(&inputs.foreground),
        background: reads(&inputs.background),
        custom_foreground: reads(&inputs.custom_foreground),
        custom_background: reads(&inputs.custom_background),
        cursor_foreground: reads(&inputs.cursor_foreground),
        cursor: reads(&inputs.cursor),
        selection: reads(&inputs.selection),
        selection_background: reads(&inputs.selection_background),
        bold: reads(&inputs.bold),
    }
}

#[test]
fn the_default_palette_and_colors_are_applied() {
    let inputs = ColorInputs::defaults();
    let plan = color_plan(&inputs, &readability(&inputs));
    assert!(plan.palette);
    assert_eq!(plan.foreground, Some(ColorSource::Preference));
    assert_eq!(plan.background, Some(ColorSource::Preference));
    assert!(!plan.cursor_foreground);
    assert!(!plan.cursor);
    assert!(!plan.selection_foreground);
    assert!(!plan.selection_background);
    assert!(!plan.bold);
    assert!(plan.bold_is_bright);
    assert_eq!(palette_entries(DEFAULT_PALETTE).len(), 16);
}

#[test]
fn an_unparseable_palette_falls_back_to_the_default_palette() {
    let mut inputs = ColorInputs::defaults();
    inputs.palette = Some("#000000;#bad".to_owned());
    inputs.bold_is_bright = false;
    let plan = color_plan(&inputs, &readability(&inputs));
    assert!(!plan.palette);
    assert!(!plan.bold_is_bright);
}

#[test]
fn custom_tab_colors_override_the_preference_colors() {
    let mut inputs = ColorInputs::defaults();
    inputs.custom_foreground = Some("#112233".to_owned());
    inputs.custom_background = Some("#445566".to_owned());
    let plan = color_plan(&inputs, &readability(&inputs));
    assert_eq!(plan.foreground, Some(ColorSource::Custom));
    assert_eq!(plan.background, Some(ColorSource::Custom));

    inputs.custom_foreground = Some("no color".to_owned());
    let plan = color_plan(&inputs, &readability(&inputs));
    assert_eq!(plan.foreground, None);
}

#[test]
fn explicit_cursor_selection_and_bold_colors_are_applied() {
    let mut inputs = ColorInputs::defaults();
    inputs.cursor_use_default = false;
    inputs.cursor_foreground = Some("#010203".to_owned());
    inputs.cursor = Some("#040506".to_owned());
    inputs.selection_use_default = false;
    inputs.selection = Some("#070809".to_owned());
    inputs.selection_background = Some("#0a0b0c".to_owned());
    inputs.bold_use_default = false;
    inputs.bold = Some("#0d0e0f".to_owned());
    let plan = color_plan(&inputs, &readability(&inputs));
    assert!(plan.cursor_configured);
    assert!(plan.cursor_foreground);
    assert!(plan.cursor);
    assert!(plan.selection_configured);
    assert!(plan.selection_foreground);
    assert!(plan.selection_background);
    assert!(plan.bold);
}

#[test]
fn the_theme_and_a_remembered_background_take_over_when_asked() {
    let mut inputs = ColorInputs::defaults();
    inputs.use_theme = true;
    let plan = color_plan(&inputs, &readability(&inputs));
    assert_eq!(plan.foreground, Some(ColorSource::Theme));
    assert_eq!(plan.background, Some(ColorSource::Theme));

    inputs.use_theme = false;
    inputs.background_vary = true;
    inputs.has_stored_background = true;
    let plan = color_plan(&inputs, &readability(&inputs));
    assert_eq!(plan.background, Some(ColorSource::Stored));

    inputs.has_stored_background = false;
    inputs.background = Some("dark".to_owned());
    let plan = color_plan(&inputs, &readability(&inputs));
    assert_eq!(plan.background, Some(ColorSource::Theme));
}

#[test]
fn palette_texts_split_at_every_separator() {
    assert_eq!(palette_entries(""), vec![String::new()]);
    assert_eq!(palette_entries("a;b"), vec!["a".to_owned(), "b".to_owned()]);
    assert_eq!(palette_entries("a;;"), vec!["a".to_owned(), String::new(), String::new()]);
    assert!(!palette_valid(&[true; 15]));
    assert!(palette_valid(&[true; 16]));
    let mut extra = vec![true; 16];
    extra.push(false);
    assert!(palette_valid(&extra));
    extra[3] = false;
    assert!(!palette_valid(&extra));
}
