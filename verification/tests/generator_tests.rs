use json_codegen::codegen::Generator;

#[test]
fn new_starts_empty() {
    let gen = Generator::new(true);
    assert!(gen.minify);
    assert_eq!(gen.consume(), "");
}

#[test]
fn write_appends_verbatim() {
    let mut gen = Generator::new(false);
    gen.write("abc");
    gen.write("def");
    assert_eq!(gen.consume(), "abcdef");
}

#[test]
fn write_char_appends_one_character() {
    let mut gen = Generator::new(false);
    gen.write_char('[');
    gen.write_char('ß');
    assert_eq!(gen.consume(), "[ß");
}

#[test]
fn write_min_picks_by_mode() {
    let mut pretty = Generator::new(false);
    pretty.write_min(", ", ",");
    assert_eq!(pretty.consume(), ", ");
    let mut minified = Generator::new(true);
    minified.write_min(", ", ",");
    assert_eq!(minified.consume(), ",");
}

#[test]
fn new_line_indents_in_pretty_mode() {
    let mut gen = Generator::new(false);
    gen.new_line();
    gen.indent();
    gen.new_line();
    gen.indent();
    gen.new_line();
    gen.dedent();
    gen.new_line();
    assert_eq!(gen.consume(), "\n\n    \n        \n    ");
}

#[test]
fn new_line_is_a_no_op_when_minified() {
    let mut gen = Generator::new(true);
    gen.new_line();
    gen.indent();
    gen.new_line();
    assert_eq!(gen.consume(), "");
}
