use prisma_engines::parse_arguments::{
    parse_arguments_list, parse_named_arg, ArgumentsList, FileId, Pair, Rule, Span,
};

fn leaf(rule: Rule, text: &str, start: usize) -> Pair {
    Pair { rule, text: text.to_string(), start, end: start + text.len(), inner: Vec::new() }
}

fn node(rule: Rule, text: &str, start: usize, inner: Vec<Pair>) -> Pair {
    Pair { rule, text: text.to_string(), start, end: start + text.len(), inner }
}

fn empty_list() -> ArgumentsList {
    ArgumentsList { arguments: Vec::new(), empty_arguments: Vec::new(), trailing_comma: None }
}

fn span(start: usize, end: usize, file: usize) -> Span {
    Span { start, end, file_id: FileId(file) }
}

// `@default(1, map: "x", sort: , )` with the list starting at 9.
fn sample_list() -> Pair {
    node(
        Rule::arguments_list,
        "1, map: \"x\", sort: , ",
        9,
        vec![
            leaf(Rule::expression, "1", 9),
            node(
                Rule::named_argument,
                "map: \"x\"",
                12,
                vec![leaf(Rule::identifier, "map", 12), leaf(Rule::expression, "\"x\"", 17)],
            ),
            node(Rule::empty_argument, "sort: ", 22, vec![leaf(Rule::identifier, "sort", 22)]),
            leaf(Rule::trailing_comma, ",", 28),
            leaf(Rule::trailing_comment, "// c", 30),
        ],
    )
}

#[test]
fn unnamed_named_and_empty_arguments_in_order() {
    let mut args = empty_list();
    parse_arguments_list(sample_list(), &mut args, FileId(3));

    assert_eq!(args.arguments.len(), 2);
    let first = &args.arguments[0];
    assert!(first.name.is_none());
    assert_eq!(first.value.text, "1");
    assert_eq!(first.span, span(9, 10, 3));

    let second = &args.arguments[1];
    let name = second.name.as_ref().unwrap();
    assert_eq!(name.name, "map");
    assert_eq!(name.span, span(12, 15, 3));
    assert_eq!(second.value.text, "\"x\"");
    assert_eq!(second.value.rule, Rule::expression);
    assert_eq!(second.span, span(12, 20, 3));

    assert_eq!(args.empty_arguments.len(), 1);
    assert_eq!(args.empty_arguments[0].name.name, "sort");
    assert_eq!(args.empty_arguments[0].name.span, span(22, 26, 3));

    assert_eq!(args.trailing_comma, Some(span(28, 29, 3)));
}

#[test]
fn parsing_appends_to_what_is_there() {
    let mut args = empty_list();
    parse_arguments_list(sample_list(), &mut args, FileId(0));
    parse_arguments_list(
        node(Rule::arguments_list, "true", 40, vec![leaf(Rule::expression, "true", 40)]),
        &mut args,
        FileId(0),
    );
    assert_eq!(args.arguments.len(), 3);
    assert_eq!(args.arguments[2].value.text, "true");
    // The second list has no trailing comma: the first one's stays.
    assert_eq!(args.trailing_comma, Some(span(28, 29, 0)));
}

#[test]
fn empty_list_changes_nothing() {
    let mut args = empty_list();
    parse_arguments_list(node(Rule::arguments_list, "", 5, Vec::new()), &mut args, FileId(1));
    assert!(args.arguments.is_empty());
    assert!(args.empty_arguments.is_empty());
    assert_eq!(args.trailing_comma, None);
}

#[test]
fn comments_and_blank_lines_are_skipped() {
    let mut args = empty_list();
    parse_arguments_list(
        node(
            Rule::arguments_list,
            "",
            0,
            vec![
                leaf(Rule::empty_lines, "\n\n", 0),
                leaf(Rule::comment_block, "// a", 2),
                leaf(Rule::BLOCK_LEVEL_CATCH_ALL, "?", 6),
            ],
        ),
        &mut args,
        FileId(0),
    );
    assert!(args.arguments.is_empty());
    assert!(args.empty_arguments.is_empty());
    assert_eq!(args.trailing_comma, None);
}

#[test]
fn last_trailing_comma_wins() {
    let mut args = empty_list();
    parse_arguments_list(
        node(
            Rule::arguments_list,
            ",,",
            0,
            vec![leaf(Rule::trailing_comma, ",", 0), leaf(Rule::trailing_comma, ",", 1)],
        ),
        &mut args,
        FileId(2),
    );
    assert_eq!(args.trailing_comma, Some(span(1, 2, 2)));
}

#[test]
fn named_argument_takes_last_name_and_value() {
    let pair = node(
        Rule::named_argument,
        "a b: 1 2",
        0,
        vec![
            leaf(Rule::identifier, "a", 0),
            leaf(Rule::identifier, "b", 2),
            leaf(Rule::trailing_comment, "//", 3),
            leaf(Rule::expression, "1", 5),
            leaf(Rule::expression, "2", 7),
        ],
    );
    let arg = parse_named_arg(pair, FileId(4));
    let name = arg.name.unwrap();
    assert_eq!(name.name, "b");
    assert_eq!(name.span, span(2, 3, 4));
    assert_eq!(arg.value.text, "2");
    assert_eq!(arg.value.start, 7);
    assert_eq!(arg.span, span(0, 8, 4));
}

#[test]
fn empty_argument_takes_first_name() {
    let mut args = empty_list();
    parse_arguments_list(
        node(
            Rule::arguments_list,
            "x y:",
            0,
            vec![node(
                Rule::empty_argument,
                "x y:",
                0,
                vec![
                    leaf(Rule::trailing_comment, "", 0),
                    leaf(Rule::identifier, "x", 0),
                    leaf(Rule::identifier, "y", 2),
                ],
            )],
        ),
        &mut args,
        FileId(0),
    );
    assert_eq!(args.empty_arguments.len(), 1);
    assert_eq!(args.empty_arguments[0].name.name, "x");
    assert!(args.arguments.is_empty());
}
