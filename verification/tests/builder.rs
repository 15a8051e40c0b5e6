use tgs_readline::{Line, LineBuilder, LineBuilderError};

type Plain = Line<u8, u16, u32, u64, String, bool>;

#[test]
fn a_default_line_has_default_parts() {
    let line: Plain = Line::default();
    assert_eq!((line.menu, line.completer, line.buffer_history), (0, 0, 0));
    assert_eq!((line.highlighter, line.prompt.as_str(), line.autosuggester), (0, "", false));
    assert_eq!(line.normal_keys, "");
    assert_eq!(line.painter.get_term_size(), (0, 0));
}

#[test]
fn chosen_parts_are_kept() {
    let builder: LineBuilder<u8, u16, u32, u64, String, bool> = LineBuilder::default();
    let line = builder
        .with_menu(1)
        .with_completer(2)
        .with_highlighter(3)
        .with_prompt(String::from("$ "))
        .build()
        .unwrap();
    assert_eq!((line.menu, line.completer, line.highlighter), (1, 2, 3));
    assert_eq!(line.prompt, "$ ");
    assert_eq!(line.buffer_history, 0);
    assert!(!line.autosuggester);
}

#[test]
fn the_last_choice_wins() {
    let builder: LineBuilder<u8, u16, u32, u64, String, bool> = LineBuilder::default();
    let line = builder.with_menu(1).with_prompt(String::from("a")).with_menu(4).build().unwrap();
    assert_eq!(line.menu, 4);
    assert_eq!(line.prompt, "a");
}

#[test]
fn a_line_can_always_be_built() {
    let builder: LineBuilder<u8, u16, u32, u64, String, bool> = LineBuilder::default();
    let built: Result<Plain, LineBuilderError> = builder.build();
    assert!(built.is_ok());
}
