use vstd::prelude::*;

verus! {

/// Identifies one schema file among those parsed together.
#[derive(Clone, Copy, Debug, PartialEq, Eq, Structural)]
pub struct FileId(pub usize);

/// A range of bytes in a schema file.
#[derive(Clone, Copy, Debug, PartialEq, Eq, Structural)]
pub struct Span {
    pub start: usize,
    pub end: usize,
    pub file_id: FileId,
}

/// The grammar rules that can meet the argument-list parser.
#[allow(non_camel_case_types)]
#[derive(Clone, Copy, Debug, PartialEq, Eq, Structural)]
pub enum Rule {
    arguments_list,
    named_argument,
    expression,
    empty_argument,
    trailing_comma,
    identifier,
    empty_lines,
    trailing_comment,
    comment_block,
    BLOCK_LEVEL_CATCH_ALL,
}

/// A node of the grammar's parse tree: the rule that matched, the text it
/// matched, where it matched (byte offsets), and the nodes inside it.
#[derive(Debug)]
pub struct Pair {
    pub rule: Rule,
    pub text: String,
    pub start: usize,
    pub end: usize,
    pub inner: Vec<Pair>,
}

/// A name in the schema, with where it stands.
#[derive(Debug)]
pub struct Identifier {
    pub name: String,
    pub span: Span,
}

/// One argument of an attribute: named (`name: value`) or not (`value`).
/// The value is the parse node of the expression.
#[derive(Debug)]
pub struct Argument {
    pub name: Option<Identifier>,
    pub value: Pair,
    pub span: Span,
}

/// An argument written without a value (`name:`). It is not valid, but it
/// is kept so that an editor can offer completions.
#[derive(Debug)]
pub struct EmptyArgument {
    pub name: Identifier,
}

/// The arguments of an attribute.
#[derive(Debug)]
pub struct ArgumentsList {
    pub arguments: Vec<Argument>,
    pub empty_arguments: Vec<EmptyArgument>,
    pub trailing_comma: Option<Span>,
}

/// The span of a node in the given file.
pub open spec fn span_of(p: Pair, file_id: FileId) -> Span {
    Span { start: p.start, end: p.end, file_id }
}

/// The identifier that a node of rule `identifier` stands for.
pub open spec fn identifier_of(p: Pair, file_id: FileId) -> Identifier {
    Identifier { name: p.text, span: span_of(p, file_id) }
}

/// `e` is named by an identifier node directly inside an `empty_argument`
/// node among `children`.
pub open spec fn named_inside_empty_node(children: Seq<Pair>, e: EmptyArgument, file_id: FileId) -> bool {
    exists|i: int, j: int|
        #![trigger children[i].inner@[j]]
        0 <= i < children.len() && children[i].rule == Rule::empty_argument && 0 <= j
            < children[i].inner@.len() && children[i].inner@[j].rule == Rule::identifier && e.name
            == identifier_of(children[i].inner@[j], file_id)
}

/// Node `i` of `s` has rule `r`, and no later node has it.
pub open spec fn is_last_with_rule(s: Seq<Pair>, i: int, r: Rule) -> bool {
    &&& 0 <= i < s.len()
    &&& s[i].rule == r
    &&& forall|j: int| i < j < s.len() ==> #[trigger] s[j].rule != r
}

/// `a` is what the node `c` stands for, spanning it: for an expression, an
/// argument without a name whose value is the node; for a named argument,
/// its last name and its last expression.
pub open spec fn argument_from_node(c: Pair, a: Argument, file_id: FileId) -> bool {
    &&& a.span == span_of(c, file_id)
    &&& if c.rule == Rule::expression {
        a.name is None && a.value == c
    } else {
        &&& c.rule == Rule::named_argument
        &&& exists|i: int|
            #[trigger] is_last_with_rule(c.inner@, i, Rule::identifier) && a.name == Some(
                identifier_of(c.inner@[i], file_id),
            )
        &&& exists|i: int|
            #[trigger] is_last_with_rule(c.inner@, i, Rule::expression) && a.value == c.inner@[i]
    }
}

/// `a` is what some node among `children` stands for.
pub open spec fn argument_from_some_node(children: Seq<Pair>, a: Argument, file_id: FileId) -> bool {
    exists|i: int| 0 <= i < children.len() && #[trigger] argument_from_node(children[i], a, file_id)
}

/// Rules that may stand anywhere and carry nothing (blank lines, comments).
pub open spec fn is_skippable(r: Rule) -> bool {
    ||| r == Rule::empty_lines
    ||| r == Rule::trailing_comment
    ||| r == Rule::comment_block
    ||| r == Rule::BLOCK_LEVEL_CATCH_ALL
}

/// The last node of `s` with rule `r`.
pub open spec fn last_with_rule(s: Seq<Pair>, r: Rule) -> Option<Pair>
    decreases s.len(),
{
    if s.len() == 0 {
        None
    } else if s.last().rule == r {
        Some(s.last())
    } else {
        last_with_rule(s.drop_last(), r)
    }
}

/// The first node of `s` with rule `r`.
pub open spec fn first_with_rule(s: Seq<Pair>, r: Rule) -> Option<Pair>
    decreases s.len(),
{
    if s.len() == 0 {
        None
    } else if s[0].rule == r {
        Some(s[0])
    } else {
        first_with_rule(s.drop_first(), r)
    }
}

/// A `named_argument` node that the parser accepts: it holds only names,
/// expressions and skippable nodes, and at least one name and one expression.
pub open spec fn named_argument_well_formed(p: Pair) -> bool {
    &&& forall|i: int|
        0 <= i < p.inner@.len() ==> {
            let r = #[trigger] p.inner@[i].rule;
            r == Rule::identifier || r == Rule::expression || is_skippable(r)
        }
    &&& last_with_rule(p.inner@, Rule::identifier) is Some
    &&& last_with_rule(p.inner@, Rule::expression) is Some
}

/// The argument that a well-formed `named_argument` node stands for: its last
/// name and its last expression.
pub open spec fn named_argument_spec(p: Pair, file_id: FileId) -> Argument {
    Argument {
        name: Some(identifier_of(last_with_rule(p.inner@, Rule::identifier)->0, file_id)),
        value: last_with_rule(p.inner@, Rule::expression)->0,
        span: span_of(p, file_id),
    }
}

/// A node directly inside an arguments list that the parser accepts.
pub open spec fn list_child_well_formed(p: Pair) -> bool {
    if p.rule == Rule::named_argument {
        named_argument_well_formed(p)
    } else if p.rule == Rule::empty_argument {
        first_with_rule(p.inner@, Rule::identifier) is Some
    } else {
        p.rule == Rule::expression || p.rule == Rule::trailing_comma || is_skippable(p.rule)
    }
}

/// An `arguments_list` node that the parser accepts.
pub open spec fn arguments_list_well_formed(token: Pair) -> bool {
    &&& token.rule == Rule::arguments_list
    &&& forall|i: int|
        0 <= i < token.inner@.len() ==> list_child_well_formed(#[trigger] token.inner@[i])
}

/// The arguments that the nodes `children` of an arguments list stand for, in order.
pub open spec fn arguments_of(children: Seq<Pair>, file_id: FileId) -> Seq<Argument>
    decreases children.len(),
{
    if children.len() == 0 {
        seq![]
    } else {
        let c = children.last();
        arguments_of(children.drop_last(), file_id) + if c.rule == Rule::named_argument {
            seq![named_argument_spec(c, file_id)]
        } else if c.rule == Rule::expression {
            seq![Argument { name: None, value: c, span: span_of(c, file_id) }]
        } else {
            Seq::<Argument>::empty()
        }
    }
}

/// The arguments without a value that the nodes `children` stand for, in order.
pub open spec fn empty_arguments_of(children: Seq<Pair>, file_id: FileId) -> Seq<EmptyArgument>
    decreases children.len(),
{
    if children.len() == 0 {
        seq![]
    } else {
        let c = children.last();
        empty_arguments_of(children.drop_last(), file_id) + if c.rule == Rule::empty_argument {
            seq![
                EmptyArgument {
                    name: identifier_of(first_with_rule(c.inner@, Rule::identifier)->0, file_id),
                },
            ]
        } else {
            Seq::<EmptyArgument>::empty()
        }
    }
}

/// The trailing comma after the nodes `children`: the span of the last
/// `trailing_comma` among them, else the one recorded before.
pub open spec fn trailing_comma_of(children: Seq<Pair>, file_id: FileId, before: Option<Span>) -> Option<
    Span,
> {
    match last_with_rule(children, Rule::trailing_comma) {
        Some(c) => Some(span_of(c, file_id)),
        None => before,
    }
}

/// Removes and returns the first node of `v` with rule `r`.
fn take_first_with_rule(v: Vec<Pair>, r: Rule) -> (p: Pair)
    requires
        first_with_rule(v@, r) is Some,
    ensures
        p == first_with_rule(v@, r)->0,
{
    let mut rest = v;
    loop
        invariant
            first_with_rule(rest@, r) == first_with_rule(v@, r),
            first_with_rule(rest@, r) is Some,
        decreases rest.len(),
    {
        let ghost before = rest@;
        assert(before.len() > 0);
        let t = rest.remove(0);
        if t.rule == r {
            return t;
        }
        assert(rest@ == before.drop_first());
    }
}

/// Turns a `named_argument` node into an argument: its last name and its last
/// expression, spanning the whole node.
pub fn parse_named_arg(pair: Pair, file_id: FileId) -> (arg: Argument)
    requires
        pair.rule == Rule::named_argument,
        named_argument_well_formed(pair),
    ensures
        arg == named_argument_spec(pair, file_id),
        argument_from_node(pair, arg, file_id),
{
    proof {
        lemma_named_argument_from_node(pair, file_id);
    }
    let ghost children = pair.inner@;
    let span = Span { start: pair.start, end: pair.end, file_id };
    let mut name: Option<Pair> = None;
    let mut argument: Option<Pair> = None;
    let mut rest = pair.inner;
    assert(children.len() == rest.len());
    let mut k: usize = 0;
    while rest.len() > 0
        invariant
            k <= children.len(),
            children.len() <= usize::MAX,
            rest@ == children.skip(k as int),
            name == last_with_rule(children.take(k as int), Rule::identifier),
            argument == last_with_rule(children.take(k as int), Rule::expression),
            forall|i: int|
                0 <= i < children.len() ==> {
                    let r = #[trigger] children[i].rule;
                    r == Rule::identifier || r == Rule::expression || is_skippable(r)
                },
        decreases rest.len(),
    {
        let ghost before = rest@;
        let current = rest.remove(0);
        assert(current == children[k as int]);
        assert(children.take(k + 1).drop_last() == children.take(k as int));
        assert(children.take(k + 1).last() == children[k as int]);
        assert(rest@ == children.skip(k + 1));
        match current.rule {
            Rule::identifier => {
                name = Some(current);
            },
            Rule::expression => {
                argument = Some(current);
            },
            _ => {},
        }
        k = k + 1;
    }
    assert(children.take(k as int) == children);
    let name_pair = name.unwrap();
    let value = argument.unwrap();
    let name_span = Span { start: name_pair.start, end: name_pair.end, file_id };
    Argument { name: Some(Identifier { name: name_pair.text, span: name_span }), value, span }
}

/// Adds to `arguments` what the nodes inside the `arguments_list` node
/// `token` stand for: named and unnamed arguments, arguments without a value,
/// and the last trailing comma.
pub fn parse_arguments_list(token: Pair, arguments: &mut ArgumentsList, file_id: FileId)
    requires
        arguments_list_well_formed(token),
    ensures
        final(arguments).arguments@ == old(arguments).arguments@ + arguments_of(token.inner@, file_id),
        final(arguments).empty_arguments@ == old(arguments).empty_arguments@ + empty_arguments_of(
            token.inner@,
            file_id,
        ),
        final(arguments).trailing_comma == trailing_comma_of(
            token.inner@,
            file_id,
            old(arguments).trailing_comma,
        ),
        // Only a `trailing_comma` node records a trailing comma: without one,
        // the recorded one stays; with some, it is the span of the last.
        (forall|i: int|
            0 <= i < token.inner@.len() ==> #[trigger] token.inner@[i].rule != Rule::trailing_comma)
            ==> final(arguments).trailing_comma == old(arguments).trailing_comma,
        forall|i: int|
            0 <= i < token.inner@.len() && #[trigger] token.inner@[i].rule == Rule::trailing_comma
                && (forall|j: int|
                i < j < token.inner@.len() ==> token.inner@[j].rule != Rule::trailing_comma)
                ==> final(arguments).trailing_comma == Some(
                (Span { start: token.inner@[i].start, end: token.inner@[i].end, file_id }),
            ),
        // Arguments come only from `named_argument` and `expression` nodes:
        // each is what such a node stands for.
        (forall|i: int|
            0 <= i < token.inner@.len() ==> #[trigger] token.inner@[i].rule != Rule::named_argument
                && token.inner@[i].rule != Rule::expression) ==> final(arguments).arguments@
            == old(arguments).arguments@,
        forall|k: int|
            old(arguments).arguments@.len() <= k < final(arguments).arguments@.len()
                ==> argument_from_some_node(
                token.inner@,
                #[trigger] final(arguments).arguments@[k],
                file_id,
            ),
        // Arguments without a value come only from `empty_argument` nodes,
        // named by an identifier node directly inside the node.
        (forall|i: int|
            0 <= i < token.inner@.len() ==> #[trigger] token.inner@[i].rule != Rule::empty_argument)
            ==> final(arguments).empty_arguments@ == old(arguments).empty_arguments@,
        forall|k: int|
            old(arguments).empty_arguments@.len() <= k < final(arguments).empty_arguments@.len()
                ==> named_inside_empty_node(
                token.inner@,
                #[trigger] final(arguments).empty_arguments@[k],
                file_id,
            ),
{
    let ghost children = token.inner@;

    let mut rest = token.inner;
    assert(children.len() == rest.len());
    let mut k: usize = 0;
    while rest.len() > 0
        invariant
            k <= children.len(),
            children.len() <= usize::MAX,
            rest@ == children.skip(k as int),
            forall|i: int| 0 <= i < children.len() ==> list_child_well_formed(#[trigger] children[i]),
            arguments.arguments@ == old(arguments).arguments@ + arguments_of(
                children.take(k as int),
                file_id,
            ),
            arguments.empty_arguments@ == old(arguments).empty_arguments@ + empty_arguments_of(
                children.take(k as int),
                file_id,
            ),
            arguments.trailing_comma == trailing_comma_of(
                children.take(k as int),
                file_id,
                old(arguments).trailing_comma,
            ),
        decreases rest.len(),
    {
        let current = rest.remove(0);
        assert(current == children[k as int]);
        assert(children.take(k + 1).drop_last() == children.take(k as int));
        assert(children.take(k + 1).last() == children[k as int]);
        assert(rest@ == children.skip(k + 1));
        assert(list_child_well_formed(current));
        let current_span = Span { start: current.start, end: current.end, file_id };
        match current.rule {
            Rule::named_argument => {
                let arg = parse_named_arg(current, file_id);
                arguments.arguments.push(arg);
            },
            Rule::expression => {
                arguments.arguments.push(Argument { name: None, value: current, span: current_span });
            },
            Rule::empty_argument => {
                let name = take_first_with_rule(current.inner, Rule::identifier);
                let name_span = Span { start: name.start, end: name.end, file_id };
                arguments.empty_arguments.push(
                    EmptyArgument { name: Identifier { name: name.text, span: name_span } },
                );
            },
            Rule::trailing_comma => {
                arguments.trailing_comma = Some(current_span);
            },
            _ => {},
        }
        k = k + 1;
    }
    assert(children.take(k as int) == children);
    proof {
        lemma_only_trailing_commas_record(children, file_id, old(arguments).trailing_comma);
        lemma_appended_arguments_come_from_value_nodes(old(arguments).arguments@, children, file_id);
        lemma_appended_empty_arguments_come_from_empty_nodes(
            old(arguments).empty_arguments@,
            children,
            file_id,
        );
    }
}


/// The last node with rule `r` in `a + b` is the last in `b`, else the last in `a`.
proof fn lemma_last_with_rule_concat(a: Seq<Pair>, b: Seq<Pair>, r: Rule)
    ensures
        last_with_rule(a + b, r) == match last_with_rule(b, r) {
            Some(p) => Some(p),
            None => last_with_rule(a, r),
        },
    decreases b.len(),
{
    if b.len() == 0 {
        assert(a + b =~= a);
    } else {
        assert((a + b).drop_last() =~= a + b.drop_last());
        assert((a + b).last() == b.last());
        lemma_last_with_rule_concat(a, b.drop_last(), r);
    }
}

/// Parsing the nodes of an arguments list in two consecutive runs into the
/// same list gives what one run over all of them gives.
pub proof fn lemma_parse_in_pieces(
    a: Seq<Pair>,
    b: Seq<Pair>,
    file_id: FileId,
    before: Option<Span>,
)
    ensures
        arguments_of(a + b, file_id) == arguments_of(a, file_id) + arguments_of(b, file_id),
        empty_arguments_of(a + b, file_id) == empty_arguments_of(a, file_id) + empty_arguments_of(
            b,
            file_id,
        ),
        trailing_comma_of(a + b, file_id, before) == trailing_comma_of(
            b,
            file_id,
            trailing_comma_of(a, file_id, before),
        ),
    decreases b.len(),
{
    lemma_last_with_rule_concat(a, b, Rule::trailing_comma);
    if b.len() == 0 {
        assert(a + b =~= a);
        assert(arguments_of(a, file_id) + arguments_of(b, file_id) =~= arguments_of(a, file_id));
        assert(empty_arguments_of(a, file_id) + empty_arguments_of(b, file_id) =~= empty_arguments_of(
            a,
            file_id,
        ));
    } else {
        assert((a + b).drop_last() =~= a + b.drop_last());
        assert((a + b).last() == b.last());
        lemma_parse_in_pieces(a, b.drop_last(), file_id, before);
        assert(arguments_of(a + b, file_id) =~= arguments_of(a, file_id) + arguments_of(b, file_id));
        assert(empty_arguments_of(a + b, file_id) =~= empty_arguments_of(a, file_id)
            + empty_arguments_of(b, file_id));
    }
}

/// Blank lines and comments among the nodes of an arguments list change
/// nothing that is parsed.
pub proof fn lemma_skippable_changes_nothing(
    children: Seq<Pair>,
    c: Pair,
    file_id: FileId,
    before: Option<Span>,
)
    requires
        is_skippable(c.rule),
    ensures
        arguments_of(children.push(c), file_id) == arguments_of(children, file_id),
        empty_arguments_of(children.push(c), file_id) == empty_arguments_of(children, file_id),
        trailing_comma_of(children.push(c), file_id, before) == trailing_comma_of(
            children,
            file_id,
            before,
        ),
{
    assert(children.push(c).drop_last() =~= children);
    assert(arguments_of(children.push(c), file_id) =~= arguments_of(children, file_id));
    assert(empty_arguments_of(children.push(c), file_id) =~= empty_arguments_of(children, file_id));
}

/// Without a node of rule `r`, none is found.
proof fn lemma_last_with_rule_none(s: Seq<Pair>, r: Rule)
    requires
        forall|i: int| 0 <= i < s.len() ==> #[trigger] s[i].rule != r,
    ensures
        last_with_rule(s, r) is None,
    decreases s.len(),
{
    if s.len() > 0 {
        let d = s.drop_last();
        assert(s[s.len() - 1].rule != r);
        assert forall|i: int| 0 <= i < d.len() implies #[trigger] d[i].rule != r by {
            assert(d[i] == s[i]);
        }
        lemma_last_with_rule_none(d, r);
    }
}

/// The node found with rule `r` is the last that has it.
proof fn lemma_last_with_rule_some(s: Seq<Pair>, r: Rule, i: int)
    requires
        0 <= i < s.len(),
        s[i].rule == r,
        forall|j: int| i < j < s.len() ==> #[trigger] s[j].rule != r,
    ensures
        last_with_rule(s, r) == Some(s[i]),
    decreases s.len(),
{
    if i < s.len() - 1 {
        let d = s.drop_last();
        assert(s[s.len() - 1].rule != r);
        assert(d[i] == s[i]);
        assert forall|j: int| i < j < d.len() implies #[trigger] d[j].rule != r by {
            assert(d[j] == s[j]);
        }
        lemma_last_with_rule_some(d, r, i);
    }
}

/// Only `trailing_comma` nodes record a trailing comma: among nodes without
/// one the recorded comma stays; otherwise it is the span of the last one.
pub proof fn lemma_only_trailing_commas_record(
    children: Seq<Pair>,
    file_id: FileId,
    before: Option<Span>,
)
    ensures
        (forall|i: int|
            0 <= i < children.len() ==> #[trigger] children[i].rule != Rule::trailing_comma)
            ==> trailing_comma_of(children, file_id, before) == before,
        forall|i: int|
            0 <= i < children.len() && #[trigger] children[i].rule == Rule::trailing_comma && (forall|
                j: int,
            |
                i < j < children.len() ==> children[j].rule != Rule::trailing_comma)
                ==> trailing_comma_of(children, file_id, before) == Some(
                (Span { start: children[i].start, end: children[i].end, file_id }),
            ),
{
    if forall|i: int|
        0 <= i < children.len() ==> #[trigger] children[i].rule != Rule::trailing_comma {
        lemma_last_with_rule_none(children, Rule::trailing_comma);
    }
    assert forall|i: int|
        0 <= i < children.len() && #[trigger] children[i].rule == Rule::trailing_comma && (forall|
            j: int,
        |
            i < j < children.len() ==> children[j].rule != Rule::trailing_comma)
            implies trailing_comma_of(children, file_id, before) == Some(
        (Span { start: children[i].start, end: children[i].end, file_id }),
    ) by {
        lemma_last_with_rule_some(children, Rule::trailing_comma, i);
    }
}

/// The first node with a rule, when there is one, stands among the nodes and
/// has that rule.
proof fn lemma_first_with_rule_member(s: Seq<Pair>, r: Rule)
    ensures
        first_with_rule(s, r) matches Some(p) ==> exists|j: int|
            0 <= j < s.len() && #[trigger] s[j] == p && p.rule == r,
    decreases s.len(),
{
    if s.len() > 0 {
        if s[0].rule != r {
            lemma_first_with_rule_member(s.drop_first(), r);
            if let Some(p) = first_with_rule(s, r) {
                let j = choose|j: int|
                    0 <= j < s.drop_first().len() && #[trigger] s.drop_first()[j] == p && p.rule
                        == r;
                assert(s[j + 1] == p);
            }
        } else {
            assert(s[0] == s[0]);
        }
    }
}

/// Without `named_argument` and `expression` nodes there are no arguments.
proof fn lemma_no_value_nodes_no_arguments(children: Seq<Pair>, file_id: FileId)
    requires
        forall|i: int|
            0 <= i < children.len() ==> #[trigger] children[i].rule != Rule::named_argument
                && children[i].rule != Rule::expression,
    ensures
        arguments_of(children, file_id).len() == 0,
    decreases children.len(),
{
    if children.len() > 0 {
        let d = children.drop_last();
        assert(children[children.len() - 1].rule != Rule::named_argument);
        assert forall|i: int|
            0 <= i < d.len() implies #[trigger] d[i].rule != Rule::named_argument && d[i].rule
                != Rule::expression by {
            assert(d[i] == children[i]);
        }
        lemma_no_value_nodes_no_arguments(d, file_id);
    }
}

/// The node found last with rule `r` is the last node that has it.
proof fn lemma_last_with_rule_found(s: Seq<Pair>, r: Rule)
    ensures
        last_with_rule(s, r) matches Some(p) ==> exists|i: int|
            #[trigger] is_last_with_rule(s, i, r) && s[i] == p,
    decreases s.len(),
{
    if s.len() > 0 {
        let n = s.len() - 1;
        if s[n].rule == r {
            assert(is_last_with_rule(s, n, r));
        } else {
            let d = s.drop_last();
            lemma_last_with_rule_found(d, r);
            if let Some(p) = last_with_rule(s, r) {
                let i = choose|i: int| #[trigger] is_last_with_rule(d, i, r) && d[i] == p;
                assert(d[i] == s[i]);
                assert forall|j: int| i < j < s.len() implies #[trigger] s[j].rule != r by {
                    if j < n {
                        assert(d[j] == s[j]);
                    }
                }
                assert(is_last_with_rule(s, i, r));
            }
        }
    }
}

/// A well-formed `named_argument` node stands for its last name and its
/// last expression.
proof fn lemma_named_argument_from_node(c: Pair, file_id: FileId)
    requires
        c.rule == Rule::named_argument,
        named_argument_well_formed(c),
    ensures
        argument_from_node(c, named_argument_spec(c, file_id), file_id),
{
    lemma_last_with_rule_found(c.inner@, Rule::identifier);
    lemma_last_with_rule_found(c.inner@, Rule::expression);
}

/// Each argument is what a `named_argument` or `expression` node stands for.
proof fn lemma_argument_source(children: Seq<Pair>, file_id: FileId, k: int)
    requires
        0 <= k < arguments_of(children, file_id).len(),
        forall|i: int|
            0 <= i < children.len() && #[trigger] children[i].rule == Rule::named_argument
                ==> named_argument_well_formed(children[i]),
    ensures
        argument_from_some_node(children, arguments_of(children, file_id)[k], file_id),
    decreases children.len(),
{
    let d = children.drop_last();
    let n = children.len() - 1;
    let ad = arguments_of(d, file_id);
    if k < ad.len() {
        assert forall|i: int|
            0 <= i < d.len() && #[trigger] d[i].rule == Rule::named_argument implies named_argument_well_formed(d[i]) by {
            assert(d[i] == children[i]);
        }
        lemma_argument_source(d, file_id, k);
        let i = choose|i: int| 0 <= i < d.len() && #[trigger] argument_from_node(d[i], ad[k], file_id);
        assert(children[i] == d[i]);
        assert(arguments_of(children, file_id)[k] == ad[k]);
        assert(argument_from_node(children[i], ad[k], file_id));
    } else {
        let c = children.last();
        assert(children[n] == c);
        if c.rule == Rule::named_argument {
            lemma_named_argument_from_node(c, file_id);
        }
        assert(argument_from_node(children[n], arguments_of(children, file_id)[k], file_id));
    }
}

/// Arguments appended by parsing are what `named_argument` and `expression`
/// nodes stand for; without such nodes nothing is appended.
pub proof fn lemma_appended_arguments_come_from_value_nodes(
    prefix: Seq<Argument>,
    children: Seq<Pair>,
    file_id: FileId,
)
    requires
        forall|i: int|
            0 <= i < children.len() && #[trigger] children[i].rule == Rule::named_argument
                ==> named_argument_well_formed(children[i]),
    ensures
        (forall|i: int|
            0 <= i < children.len() ==> #[trigger] children[i].rule != Rule::named_argument
                && children[i].rule != Rule::expression) ==> prefix + arguments_of(children, file_id)
            == prefix,
        forall|k: int|
            prefix.len() <= k < (prefix + arguments_of(children, file_id)).len()
                ==> argument_from_some_node(
                children,
                #[trigger] (prefix + arguments_of(children, file_id))[k],
                file_id,
            ),
{
    if forall|i: int|
        0 <= i < children.len() ==> #[trigger] children[i].rule != Rule::named_argument
            && children[i].rule != Rule::expression {
        lemma_no_value_nodes_no_arguments(children, file_id);
        assert(prefix + arguments_of(children, file_id) =~= prefix);
    }
    assert forall|k: int|
        prefix.len() <= k < (prefix + arguments_of(children, file_id)).len()
            implies argument_from_some_node(
        children,
        #[trigger] (prefix + arguments_of(children, file_id))[k],
        file_id,
    ) by {
        let m = k - prefix.len();
        lemma_argument_source(children, file_id, m);
        assert((prefix + arguments_of(children, file_id))[k] == arguments_of(children, file_id)[m]);
    }
}

/// Without `empty_argument` nodes there are no arguments without a value.
proof fn lemma_no_empty_nodes_no_empty_arguments(children: Seq<Pair>, file_id: FileId)
    requires
        forall|i: int| 0 <= i < children.len() ==> #[trigger] children[i].rule != Rule::empty_argument,
    ensures
        empty_arguments_of(children, file_id).len() == 0,
    decreases children.len(),
{
    if children.len() > 0 {
        let d = children.drop_last();
        assert(children[children.len() - 1].rule != Rule::empty_argument);
        assert forall|i: int| 0 <= i < d.len() implies #[trigger] d[i].rule != Rule::empty_argument by {
            assert(d[i] == children[i]);
        }
        lemma_no_empty_nodes_no_empty_arguments(d, file_id);
    }
}

/// Each argument without a value comes from an `empty_argument` node and is
/// named by an identifier node directly inside it.
proof fn lemma_empty_argument_source(children: Seq<Pair>, file_id: FileId, k: int)
    requires
        0 <= k < empty_arguments_of(children, file_id).len(),
        forall|i: int|
            0 <= i < children.len() && #[trigger] children[i].rule == Rule::empty_argument
                ==> first_with_rule(children[i].inner@, Rule::identifier) is Some,
    ensures
        named_inside_empty_node(children, empty_arguments_of(children, file_id)[k], file_id),
    decreases children.len(),
{
    let d = children.drop_last();
    let n = children.len() - 1;
    let c = children.last();
    let ad = empty_arguments_of(d, file_id);
    if k < ad.len() {
        assert forall|i: int|
            0 <= i < d.len() && #[trigger] d[i].rule == Rule::empty_argument implies first_with_rule(
            d[i].inner@,
            Rule::identifier,
        ) is Some by {
            assert(d[i] == children[i]);
        }
        lemma_empty_argument_source(d, file_id, k);
        let (i, j) = choose|i: int, j: int|
            #![trigger d[i].inner@[j]]
            0 <= i < d.len() && d[i].rule == Rule::empty_argument && 0 <= j < d[i].inner@.len()
                && d[i].inner@[j].rule == Rule::identifier && ad[k].name == identifier_of(
                d[i].inner@[j],
                file_id,
            );
        assert(children[i] == d[i]);
        assert(empty_arguments_of(children, file_id)[k] == ad[k]);
        assert(children[i].inner@[j] == d[i].inner@[j]);
    } else {
        assert(children[n] == c);
        assert(c.rule == Rule::empty_argument);
        lemma_first_with_rule_member(c.inner@, Rule::identifier);
        let p = first_with_rule(c.inner@, Rule::identifier)->0;
        let j = choose|j: int|
            0 <= j < c.inner@.len() && #[trigger] c.inner@[j] == p && p.rule == Rule::identifier;
        assert(children[n].inner@[j] == p);
    }
}

/// Arguments without a value appended by parsing come from `empty_argument`
/// nodes and are named by an identifier node directly inside them; without
/// such nodes nothing is appended.
pub proof fn lemma_appended_empty_arguments_come_from_empty_nodes(
    prefix: Seq<EmptyArgument>,
    children: Seq<Pair>,
    file_id: FileId,
)
    requires
        forall|i: int|
            0 <= i < children.len() && #[trigger] children[i].rule == Rule::empty_argument
                ==> first_with_rule(children[i].inner@, Rule::identifier) is Some,
    ensures
        (forall|i: int|
            0 <= i < children.len() ==> #[trigger] children[i].rule != Rule::empty_argument)
            ==> prefix + empty_arguments_of(children, file_id) == prefix,
        forall|k: int|
            prefix.len() <= k < (prefix + empty_arguments_of(children, file_id)).len()
                ==> named_inside_empty_node(
                children,
                #[trigger] (prefix + empty_arguments_of(children, file_id))[k],
                file_id,
            ),
{
    if forall|i: int|
        0 <= i < children.len() ==> #[trigger] children[i].rule != Rule::empty_argument {
        lemma_no_empty_nodes_no_empty_arguments(children, file_id);
        assert(prefix + empty_arguments_of(children, file_id) =~= prefix);
    }
    assert forall|k: int|
        prefix.len() <= k < (prefix + empty_arguments_of(children, file_id)).len()
            implies named_inside_empty_node(
        children,
        #[trigger] (prefix + empty_arguments_of(children, file_id))[k],
        file_id,
    ) by {
        let m = k - prefix.len();
        lemma_empty_argument_source(children, file_id, m);
        assert((prefix + empty_arguments_of(children, file_id))[k] == empty_arguments_of(
            children,
            file_id,
        )[m]);
    }
}

} // verus!
