use bbs::ansi::AnsiColor;
use bbs::ansi::AnsiStyle;

#[test]
fn apply_wraps_text_in_colour_codes() {
    let style = AnsiStyle::new(Some(AnsiColor::Red), None);
    assert_eq!(style.apply("x"), "\u{1b}[31;49mx\u{1b}[37;40m");
}

#[test]
fn apply_without_colours_uses_defaults() {
    let style = AnsiStyle::new(None, None);
    assert_eq!(style.apply("text"), "\u{1b}[39;49mtext\u{1b}[37;40m");
}

#[test]
fn apply_sets_foreground_and_background() {
    let style = AnsiStyle::new(Some(AnsiColor::White), Some(AnsiColor::Blue));
    assert_eq!(style.apply("ok"), "\u{1b}[37;44mok\u{1b}[37;40m");
}

#[test]
fn explicit_default_colours_use_their_own_codes() {
    let style = AnsiStyle::new(Some(AnsiColor::Default), Some(AnsiColor::Default));
    assert_eq!(style.apply("d"), "\u{1b}[39;49md\u{1b}[37;40m");
}
