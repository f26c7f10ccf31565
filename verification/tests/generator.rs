use sea_orm_dbml::generator::{repeat_str, Block, Codegen};

#[test]
fn root_block_is_its_lines() {
    let block = Block::root().line("a").line("b");
    assert_eq!(block.to_string(), "a\nb\n");
    assert_eq!(Block::root().to_string(), "");
    assert_eq!(Block::new(0, Some("ignored")).line("x").to_string(), "x\n");
}

#[test]
fn lines_are_indented_to_the_level() {
    assert_eq!(Block::new(1, Some("mod m")).line("x;").to_string(), "mod m {\n\tx;\n}");
    assert_eq!(Block::new(2, Some("fn f()")).line("x;").to_string(), "\tfn f() {\n\t\tx;\n\t}");
    assert_eq!(
        Block::new(3, Some("if c")).line("x;").line("y;").to_string(),
        "\t\tif c {\n\t\t\tx;\n\t\t\ty;\n\t\t}"
    );
}

#[test]
fn empty_block_closes_at_once() {
    assert_eq!(Block::new(1, Some("struct S")).to_string(), "struct S {}");
    assert_eq!(Block::new(2, Some("struct S")).to_string(), "\tstruct S {}");
    assert_eq!(Block::new(2, None).to_string(), "\t{}");
}

#[test]
fn block_without_introduction() {
    assert_eq!(Block::new(1, None).line("x").to_string(), "{\n\tx\n}");
}

#[test]
fn conditional_line() {
    let block = Block::new(1, Some("m")).line_cond(false, "a").line_cond(true, "b");
    assert_eq!(block.to_string(), "m {\n\tb\n}");
    assert_eq!(
        Block::new(1, Some("m")).line_cond(false, "a"),
        Block::new(1, Some("m"))
    );
}

#[test]
fn skipped_lines() {
    assert_eq!(Block::root().line("a").line_skip(2).line("b").to_string(), "a\n\n\nb\n");
    assert_eq!(Block::root().line_skip(0).to_string(), "");
    assert_eq!(Block::new(1, Some("m")).line_skip(1).to_string(), "m {\n\n}");
}

#[test]
fn nested_blocks() {
    let inner = Block::new(2, Some("fn f()")).line("x;");
    let outer = Block::new(1, Some("mod m")).line("use a;").block(inner).line("y;");
    assert_eq!(outer.to_string(), "mod m {\n\tuse a;\n\tfn f() {\n\t\tx;\n\t}\n\ty;\n}");
}

#[test]
fn list_of_blocks_has_an_empty_line_before_each() {
    let one = Block::new(2, Some("a")).line("x");
    let two = Block::new(2, Some("b"));
    let outer = Block::new(1, Some("m")).line("h").block_vec(vec![one, two]);
    assert_eq!(outer.to_string(), "m {\n\th\n\n\ta {\n\t\tx\n\t}\n\n\tb {}\n}");
    assert_eq!(Block::new(1, Some("m")).block_vec(vec![]).to_string(), "m {}");
}

#[test]
fn file_under_construction() {
    let file = Codegen::new()
        .line("//! head")
        .line_skip(1)
        .line_cond(false, "never")
        .line_cond(true, "use a;")
        .block(Block::new(1, Some("mod m")).line("x;"))
        .block_vec(vec![Block::new(1, Some("mod n"))]);
    assert_eq!(file.to_string(), "//! head\n\nuse a;\nmod m {\n\tx;\n}\n\nmod n {}\n");
    assert_eq!(Codegen::new().to_string(), "");
    assert_eq!(file.clone(), file);
}

#[test]
fn repeated_text() {
    assert_eq!(repeat_str("ab", 3), "ababab");
    assert_eq!(repeat_str("ab", 0), "");
    assert_eq!(repeat_str("", 4), "");
}
