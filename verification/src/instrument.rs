//! The rules of the `#[instrument]` and `#[traced]` attributes: the grammar of
//! their argument list, how the arguments combine, which function arguments a
//! span records, its name, and the status it records on return.
use vstd::prelude::*;

use crate::span::{error_status, is_error_status, SpanStatus};
use crate::text::owned;

verus! {

/// A single argument of the `instrument` attribute.
#[derive(Clone, Debug)]
pub enum InstrumentArg {
    /// `name = "span_name"`
    Name(String),
    /// `skip(arg1, arg2)`
    Skip(Vec<String>),
    /// `skip_all`
    SkipAll,
    /// `err`
    RecordErr,
    /// `level = ...`, accepted for compatibility; it changes nothing
    Level,
}

/// The keyword that begins an argument of the `instrument` attribute.
#[derive(Clone, Copy, Debug, PartialEq, Eq, Structural)]
pub enum ArgKeyword {
    /// `name`, followed by `=` and a string literal
    Name,
    /// `skip`, followed by a parenthesized list of identifiers
    Skip,
    /// `skip_all`
    SkipAll,
    /// `err`
    RecordErr,
    /// `level`, followed by `=` and a literal, accepted for compatibility
    Level,
}

/// The keyword an identifier names, or none.
pub open spec fn spec_keyword(ident: Seq<char>) -> Option<ArgKeyword> {
    if ident == "name"@ {
        Some(ArgKeyword::Name)
    } else if ident == "skip"@ {
        Some(ArgKeyword::Skip)
    } else if ident == "skip_all"@ {
        Some(ArgKeyword::SkipAll)
    } else if ident == "err"@ {
        Some(ArgKeyword::RecordErr)
    } else if ident == "level"@ {
        Some(ArgKeyword::Level)
    } else {
        None
    }
}

/// Reads the keyword that begins an argument; an unknown identifier is an error
/// whose message is `unknown attribute: {ident}`.
pub fn keyword(ident: &str) -> (r: Result<ArgKeyword, String>)
    ensures
        match spec_keyword(ident@) {
            Some(k) => r == Ok::<ArgKeyword, String>(k),
            None => r matches Err(m) && m@ == "unknown attribute: "@ + ident@,
        },
{
    let s = owned(ident);
    if s == "name".to_owned() {
        Ok(ArgKeyword::Name)
    } else if s == "skip".to_owned() {
        Ok(ArgKeyword::Skip)
    } else if s == "skip_all".to_owned() {
        Ok(ArgKeyword::SkipAll)
    } else if s == "err".to_owned() {
        Ok(ArgKeyword::RecordErr)
    } else if s == "level".to_owned() {
        Ok(ArgKeyword::Level)
    } else {
        Err(crate::text::concat2("unknown attribute: ", ident))
    }
}

/// The arguments of the `instrument` attribute, combined.
#[derive(Clone, Debug)]
pub struct InstrumentArgs {
    /// Custom span name
    pub name: Option<String>,
    /// Arguments not to record
    pub skip: Vec<String>,
    /// Record no arguments
    pub skip_all: bool,
    /// Record errors
    pub err: bool,
}

/// What an argument of the `instrument` attribute says, as plain values.
pub enum ArgView {
    /// `name = "..."`, with the string's value
    Name(Seq<char>),
    /// `skip(...)`, with the identifiers listed
    Skip(Seq<Seq<char>>),
    /// `skip_all`
    SkipAll,
    /// `err`
    RecordErr,
    /// `level = ...`
    Level,
}

/// The plain view of an argument.
pub open spec fn arg_view(a: InstrumentArg) -> ArgView {
    match a {
        InstrumentArg::Name(n) => ArgView::Name(n@),
        InstrumentArg::Skip(s) => ArgView::Skip(s@.map_values(|x: String| x@)),
        InstrumentArg::SkipAll => ArgView::SkipAll,
        InstrumentArg::RecordErr => ArgView::RecordErr,
        InstrumentArg::Level => ArgView::Level,
    }
}

/// The plain views of a list of arguments.
pub open spec fn arg_views(args: Seq<InstrumentArg>) -> Seq<ArgView> {
    args.map_values(|a: InstrumentArg| arg_view(a))
}

/// The span name the arguments give: that of the last `name` argument.
pub open spec fn args_name(args: Seq<ArgView>) -> Option<Seq<char>>
    decreases args.len(),
{
    if args.len() == 0 {
        None
    } else {
        match args.last() {
            ArgView::Name(n) => Some(n),
            _ => args_name(args.drop_last()),
        }
    }
}

/// The names of all `skip` lists, in order.
pub open spec fn args_skip(args: Seq<ArgView>) -> Seq<Seq<char>>
    decreases args.len(),
{
    if args.len() == 0 {
        Seq::empty()
    } else {
        args_skip(args.drop_last()) + match args.last() {
            ArgView::Skip(l) => l,
            _ => Seq::empty(),
        }
    }
}

/// Some argument is `skip_all`.
pub open spec fn args_skip_all(args: Seq<ArgView>) -> bool {
    exists|i: int| 0 <= i < args.len() && args[i] is SkipAll
}

/// Some argument is `err`.
pub open spec fn args_err(args: Seq<ArgView>) -> bool {
    exists|i: int| 0 <= i < args.len() && args[i] is RecordErr
}

/// The combined arguments hold what a list of arguments says: the last name,
/// all skip lists in order, and whether any argument is `skip_all` or `err`.
pub open spec fn combines(r: InstrumentArgs, args: Seq<ArgView>) -> bool {
    &&& match r.name {
        Some(n) => args_name(args) == Some(n@),
        None => args_name(args) is None,
    }
    &&& r.skip@.map_values(|x: String| x@) == args_skip(args)
    &&& r.skip_all == args_skip_all(args)
    &&& r.err == args_err(args)
}

impl InstrumentArgs {
    /// Combines the arguments in order: the last name wins, skip lists
    /// accumulate, and `skip_all` and `err` hold when any argument sets them.
    pub fn from_args(args: &Vec<InstrumentArg>) -> (r: Self)
        ensures
            combines(r, arg_views(args@)),
    {
        let ghost av = arg_views(args@);
        let mut name: Option<String> = None;
        let mut skip: Vec<String> = Vec::new();
        let mut skip_all = false;
        let mut err = false;
        let mut i: usize = 0;
        assert(av.take(0) =~= Seq::<ArgView>::empty());
        while i < args.len()
            invariant
                i <= args@.len(),
                av == arg_views(args@),
                match name {
                    Some(n) => args_name(av.take(i as int)) == Some(n@),
                    None => args_name(av.take(i as int)) is None,
                },
                skip@.map_values(|x: String| x@) == args_skip(av.take(i as int)),
                skip_all == args_skip_all(av.take(i as int)),
                err == args_err(av.take(i as int)),
            decreases args@.len() - i,
        {
            let ghost pre = av.take(i as int);
            let ghost cur = av.take(i + 1);
            assert(cur.drop_last() =~= pre);
            assert(cur.last() == av[i as int]);
            assert(av[i as int] == arg_view(args@[i as int]));
            assert(args_skip_all(cur) == (args_skip_all(pre) || av[i as int] is SkipAll)) by {
                if av[i as int] is SkipAll {
                    assert(cur[i as int] is SkipAll);
                }
                if args_skip_all(pre) {
                    let j = choose|j: int| 0 <= j < pre.len() && pre[j] is SkipAll;
                    assert(cur[j] == pre[j]);
                }
                if args_skip_all(cur) {
                    let j = choose|j: int| 0 <= j < cur.len() && cur[j] is SkipAll;
                    if j < i {
                        assert(pre[j] == cur[j]);
                    }
                }
            }
            assert(args_err(cur) == (args_err(pre) || av[i as int] is RecordErr)) by {
                if av[i as int] is RecordErr {
                    assert(cur[i as int] is RecordErr);
                }
                if args_err(pre) {
                    let j = choose|j: int| 0 <= j < pre.len() && pre[j] is RecordErr;
                    assert(cur[j] == pre[j]);
                }
                if args_err(cur) {
                    let j = choose|j: int| 0 <= j < cur.len() && cur[j] is RecordErr;
                    if j < i {
                        assert(pre[j] == cur[j]);
                    }
                }
            }
            match &args[i] {
                InstrumentArg::Name(n) => {
                    name = Some(owned(n.as_str()));
                },
                InstrumentArg::Skip(s) => {
                    let ghost before = skip@.map_values(|x: String| x@);
                    let mut j: usize = 0;
                    while j < s.len()
                        invariant
                            j <= s@.len(),
                            skip@.map_values(|x: String| x@) == before + s@.take(
                                j as int,
                            ).map_values(|x: String| x@),
                        decreases s@.len() - j,
                    {
                        let ghost mid = skip@.map_values(|x: String| x@);
                        let item = owned(s[j].as_str());
                        skip.push(item);
                        assert(skip@.map_values(|x: String| x@) =~= mid.push(s@[j as int]@));
                        assert(s@.take(j + 1).map_values(|x: String| x@) =~= s@.take(
                            j as int,
                        ).map_values(|x: String| x@).push(s@[j as int]@));
                        j = j + 1;
                    }
                    assert(s@.take(j as int) =~= s@);
                },
                InstrumentArg::SkipAll => {
                    skip_all = true;
                },
                InstrumentArg::RecordErr => {
                    err = true;
                },
                InstrumentArg::Level => {},
            }
            assert(args_skip(cur) =~= args_skip(pre) + match args@[i as int] {
                InstrumentArg::Skip(s) => s@.map_values(|x: String| x@),
                _ => Seq::empty(),
            });
            proof {
                if !(av[i as int] is Skip) {
                    assert(args_skip(pre) + Seq::<Seq<char>>::empty() =~= args_skip(pre));
                }
            }
            i = i + 1;
        }
        assert(av.take(i as int) =~= av);
        InstrumentArgs { name, skip, skip_all, err }
    }
}

// ---------------------------------------------------------------------------
// The attribute's grammar
// ---------------------------------------------------------------------------

/// A token of an attribute's argument list, as the compiler hands it over.
#[derive(Debug)]
pub enum AttrToken {
    /// An identifier or keyword, as written
    Ident(String),
    /// A punctuation character, such as `=` or `,`
    Punct(char),
    /// A string literal, by its value
    StrLit(String),
    /// An integer or floating-point literal, as written
    NumLit(String),
    /// Any other literal (character, byte, byte string), as written
    OtherLit(String),
    /// A group delimited by parentheses, with its tokens
    Paren(Vec<AttrToken>),
    /// A group delimited by brackets or braces, with its tokens
    OtherGroup(Vec<AttrToken>),
}

/// Why an argument list of the `instrument` attribute is refused.
#[derive(Clone, Debug)]
pub enum AttrError {
    /// An argument begins with an identifier that names no argument; the
    /// message is `unknown attribute: {ident}`
    UnknownAttribute(String),
    /// `name =` is followed by a literal that is not a string; the message is
    /// `expected string literal`
    ExpectedStringLiteral,
    /// The tokens do not have the shape of an argument list at all (a missing
    /// `=`, literal, parenthesized list or `,`, a keyword where an identifier
    /// belongs); the parser reports its own syntax message
    Malformed,
}

/// The plain view of an error.
pub enum AttrErrorView {
    /// `unknown attribute: {ident}`
    UnknownAttribute(Seq<char>),
    /// `expected string literal`
    ExpectedStringLiteral,
    /// A syntax error
    Malformed,
}

/// The plain view of an error.
pub open spec fn error_view(e: AttrError) -> AttrErrorView {
    match e {
        AttrError::UnknownAttribute(s) => AttrErrorView::UnknownAttribute(s@),
        AttrError::ExpectedStringLiteral => AttrErrorView::ExpectedStringLiteral,
        AttrError::Malformed => AttrErrorView::Malformed,
    }
}

impl AttrError {
    /// The message of an error the attribute's own rules give; none for a
    /// syntax error, whose message is the parser's.
    pub fn message(&self) -> (r: Option<String>)
        ensures
            match error_view(*self) {
                AttrErrorView::UnknownAttribute(i) => r matches Some(m) && m@ == "unknown attribute: "@ + i,
                AttrErrorView::ExpectedStringLiteral => r matches Some(m) && m@ == "expected string literal"@,
                AttrErrorView::Malformed => r is None,
            },
    {
        match self {
            AttrError::UnknownAttribute(i) => Some(crate::text::concat2("unknown attribute: ", i.as_str())),
            AttrError::ExpectedStringLiteral => Some(owned("expected string literal")),
            AttrError::Malformed => None,
        }
    }
}

/// The words that are not identifiers: Rust's keywords, reserved words and `_`.
pub open spec fn rust_keywords() -> Seq<Seq<char>> {
    seq![
        "_"@,
        "abstract"@,
        "as"@,
        "async"@,
        "await"@,
        "become"@,
        "box"@,
        "break"@,
        "const"@,
        "continue"@,
        "crate"@,
        "do"@,
        "dyn"@,
        "else"@,
        "enum"@,
        "extern"@,
        "false"@,
        "final"@,
        "fn"@,
        "for"@,
        "if"@,
        "impl"@,
        "in"@,
        "let"@,
        "loop"@,
        "macro"@,
        "match"@,
        "mod"@,
        "move"@,
        "mut"@,
        "override"@,
        "priv"@,
        "pub"@,
        "ref"@,
        "return"@,
        "Self"@,
        "self"@,
        "static"@,
        "struct"@,
        "super"@,
        "trait"@,
        "true"@,
        "try"@,
        "type"@,
        "typeof"@,
        "unsafe"@,
        "unsized"@,
        "use"@,
        "virtual"@,
        "where"@,
        "while"@,
        "yield"@,
    ]
}

/// An identifier that is not a keyword.
pub open spec fn is_plain_ident(t: AttrToken) -> bool {
    t matches AttrToken::Ident(s) && !rust_keywords().contains(s@)
}

/// The punctuation token `c`.
pub open spec fn is_punct(t: AttrToken, c: char) -> bool {
    t matches AttrToken::Punct(p) && p == c
}

/// How many tokens the literal at `i` takes: one for a literal token or
/// `true`/`false`, two for `-` followed by a number, none where no literal is.
pub open spec fn literal_len(t: Seq<AttrToken>, i: int) -> int {
    if 0 <= i < t.len() {
        match t[i] {
            AttrToken::StrLit(_) => 1,
            AttrToken::NumLit(_) => 1,
            AttrToken::OtherLit(_) => 1,
            AttrToken::Ident(s) => if s@ == "true"@ || s@ == "false"@ {
                1
            } else {
                0
            },
            AttrToken::Punct(c) => if c == '-' && i + 1 < t.len() && t[i + 1] is NumLit {
                2
            } else {
                0
            },
            _ => 0,
        }
    } else {
        0
    }
}

/// The identifiers of a `skip(...)` list from position `i`: identifiers
/// separated by commas, a trailing comma allowed; none if anything else occurs.
pub open spec fn skip_list(g: Seq<AttrToken>, i: int) -> Option<Seq<Seq<char>>>
    decreases g.len() - i,
{
    if i >= g.len() {
        Some(Seq::empty())
    } else if !is_plain_ident(g[i]) {
        None
    } else if i + 1 >= g.len() {
        Some(seq![g[i]->Ident_0@])
    } else if !is_punct(g[i + 1], ',') {
        None
    } else {
        match skip_list(g, i + 2) {
            Some(l) => Some(seq![g[i]->Ident_0@] + l),
            None => None,
        }
    }
}

proof fn lemma_skip_list_from(g: Seq<AttrToken>, i: int)
    requires
        0 <= i,
    ensures
        skip_list(g, i) matches Some(l) ==> (forall|k: int|
            i <= k < g.len() && #[trigger] g[k] is Ident ==> l.contains(g[k]->Ident_0@)),
        skip_list(g, i) matches Some(l) ==> (forall|m: int|
            #![trigger l[m]]
            0 <= m < l.len() ==> exists|k: int|
                i <= k < g.len() && is_plain_ident(#[trigger] g[k]) && g[k]->Ident_0@ == l[m]),
    decreases g.len() - i,
{
    if i < g.len() && is_plain_ident(g[i]) && i + 1 < g.len() && is_punct(g[i + 1], ',') {
        lemma_skip_list_from(g, i + 2);
        if let Some(l) = skip_list(g, i) {
            let rest = skip_list(g, i + 2).unwrap();
            assert(l == seq![g[i]->Ident_0@] + rest);
            assert forall|k: int| i <= k < g.len() && #[trigger] g[k] is Ident implies l.contains(
                g[k]->Ident_0@,
            ) by {
                if k == i {
                    assert(l[0] == g[i]->Ident_0@);
                } else if k >= i + 2 {
                    let m = choose|m: int| 0 <= m < rest.len() && rest[m] == g[k]->Ident_0@;
                    assert(l[m + 1] == rest[m]);
                }
            }
            assert forall|m: int| #![trigger l[m]] 0 <= m < l.len() implies exists|k: int|
                i <= k < g.len() && is_plain_ident(#[trigger] g[k]) && g[k]->Ident_0@ == l[m] by {
                if m == 0 {
                    assert(is_plain_ident(g[i]) && g[i]->Ident_0@ == l[0]);
                } else {
                    assert(l[m] == rest[m - 1]);
                }
            }
        }
    } else if i < g.len() && is_plain_ident(g[i]) && i + 1 >= g.len() {
        if let Some(l) = skip_list(g, i) {
            assert(l[0] == g[i]->Ident_0@);
            assert(is_plain_ident(g[i]) && g[i]->Ident_0@ == l[0]);
        }
    }
}

/// A `skip(...)` list keeps exactly the identifiers it names: when it parses,
/// every identifier in the group is in the list and every name in the list is
/// an identifier of the group; one identifier gives the one-name list, and
/// `a, b` (with or without a trailing comma) gives `[a, b]`.
pub proof fn lemma_skip_list_keeps_identifiers(g: Seq<AttrToken>, a: AttrToken, b: AttrToken)
    ensures
        skip_list(g, 0) matches Some(l) ==> (forall|k: int|
            0 <= k < g.len() && #[trigger] g[k] is Ident ==> l.contains(g[k]->Ident_0@)),
        skip_list(g, 0) matches Some(l) ==> (forall|m: int|
            #![trigger l[m]]
            0 <= m < l.len() ==> exists|k: int|
                0 <= k < g.len() && is_plain_ident(#[trigger] g[k]) && g[k]->Ident_0@ == l[m]),
        is_plain_ident(a) ==> skip_list(seq![a], 0) == Some(seq![a->Ident_0@]),
        is_plain_ident(a) ==> skip_list(seq![a, AttrToken::Punct(',')], 0) == Some(
            seq![a->Ident_0@],
        ),
        is_plain_ident(a) && is_plain_ident(b) ==> skip_list(seq![a, AttrToken::Punct(','), b], 0)
            == Some(seq![a->Ident_0@, b->Ident_0@]),
        is_plain_ident(a) && is_plain_ident(b) ==> skip_list(
            seq![a, AttrToken::Punct(','), b, AttrToken::Punct(',')],
            0,
        ) == Some(seq![a->Ident_0@, b->Ident_0@]),
{
    lemma_skip_list_from(g, 0);
    if is_plain_ident(a) {
        let g1 = seq![a, AttrToken::Punct(',')];
        assert(skip_list(g1, 2) == Some(Seq::<Seq<char>>::empty()));
        assert(seq![a->Ident_0@] + Seq::<Seq<char>>::empty() =~= seq![a->Ident_0@]);
        if is_plain_ident(b) {
            let g2 = seq![a, AttrToken::Punct(','), b];
            assert(skip_list(g2, 2) == Some(seq![b->Ident_0@]));
            assert(seq![a->Ident_0@] + seq![b->Ident_0@] =~= seq![a->Ident_0@, b->Ident_0@]);
            let g3 = seq![a, AttrToken::Punct(','), b, AttrToken::Punct(',')];
            assert(skip_list(g3, 4) == Some(Seq::<Seq<char>>::empty()));
            assert(skip_list(g3, 2) == Some(seq![b->Ident_0@] + Seq::<Seq<char>>::empty()));
            assert(seq![b->Ident_0@] + Seq::<Seq<char>>::empty() =~= seq![b->Ident_0@]);
        }
    }
}

/// The argument that begins at position `i`, and the position after it.
pub open spec fn parse_arg(t: Seq<AttrToken>, i: int) -> Result<(ArgView, int), AttrErrorView> {
    if 0 <= i < t.len() && is_plain_ident(t[i]) {
        let k = t[i]->Ident_0@;
        if k == "name"@ {
            if i + 1 < t.len() && is_punct(t[i + 1], '=') {
                if literal_len(t, i + 2) == 0 {
                    Err(AttrErrorView::Malformed)
                } else if t[i + 2] is StrLit {
                    Ok((ArgView::Name(t[i + 2]->StrLit_0@), i + 3))
                } else {
                    Err(AttrErrorView::ExpectedStringLiteral)
                }
            } else {
                Err(AttrErrorView::Malformed)
            }
        } else if k == "skip"@ {
            if i + 1 < t.len() && t[i + 1] is Paren {
                match skip_list(t[i + 1]->Paren_0@, 0) {
                    Some(l) => Ok((ArgView::Skip(l), i + 2)),
                    None => Err(AttrErrorView::Malformed),
                }
            } else {
                Err(AttrErrorView::Malformed)
            }
        } else if k == "skip_all"@ {
            Ok((ArgView::SkipAll, i + 1))
        } else if k == "err"@ {
            Ok((ArgView::RecordErr, i + 1))
        } else if k == "level"@ {
            if i + 1 < t.len() && is_punct(t[i + 1], '=') && literal_len(t, i + 2) > 0 {
                Ok((ArgView::Level, i + 2 + literal_len(t, i + 2)))
            } else {
                Err(AttrErrorView::Malformed)
            }
        } else {
            Err(AttrErrorView::UnknownAttribute(k))
        }
    } else {
        Err(AttrErrorView::Malformed)
    }
}

/// A `skip(...)` argument keeps every identifier of its group: when it parses,
/// it is a skip list holding each identifier written between the parentheses.
pub proof fn lemma_skip_argument_keeps_identifiers(t: Seq<AttrToken>, i: int)
    requires
        0 <= i,
        i + 1 < t.len(),
        is_plain_ident(t[i]),
        t[i]->Ident_0@ == "skip"@,
        t[i + 1] is Paren,
    ensures
        parse_arg(t, i) matches Ok((a, j)) ==> j == i + 2,
        parse_arg(t, i) matches Ok((a, j)) ==> (a matches ArgView::Skip(l) && (forall|k: int|
            0 <= k < t[i + 1]->Paren_0@.len() && #[trigger] t[i + 1]->Paren_0@[k] is Ident
                ==> l.contains(t[i + 1]->Paren_0@[k]->Ident_0@))),
{
    reveal_strlit("skip");
    reveal_strlit("name");
    assert("skip"@ != "name"@) by {
        assert("skip"@[0] != "name"@[0]);
    }
    lemma_skip_list_from(t[i + 1]->Paren_0@, 0);
}

/// The arguments from position `i` on: arguments separated by commas, a
/// trailing comma allowed; the first error met otherwise.
pub open spec fn parse_args_from(t: Seq<AttrToken>, i: int) -> Result<Seq<ArgView>, AttrErrorView>
    decreases t.len() - i,
{
    if i >= t.len() {
        Ok(Seq::empty())
    } else {
        match parse_arg(t, i) {
            Err(e) => Err(e),
            Ok((a, j)) => if j <= i {
                Err(AttrErrorView::Malformed)
            } else if j >= t.len() {
                Ok(seq![a])
            } else if !is_punct(t[j], ',') {
                Err(AttrErrorView::Malformed)
            } else {
                match parse_args_from(t, j + 1) {
                    Ok(r) => Ok(seq![a] + r),
                    Err(e) => Err(e),
                }
            },
        }
    }
}

/// Whether a word is a keyword.
fn is_keyword(word: &str) -> (r: bool)
    ensures
        r == rust_keywords().contains(word@),
{
    let kws: [&str; 52] = [
        "_",
        "abstract",
        "as",
        "async",
        "await",
        "become",
        "box",
        "break",
        "const",
        "continue",
        "crate",
        "do",
        "dyn",
        "else",
        "enum",
        "extern",
        "false",
        "final",
        "fn",
        "for",
        "if",
        "impl",
        "in",
        "let",
        "loop",
        "macro",
        "match",
        "mod",
        "move",
        "mut",
        "override",
        "priv",
        "pub",
        "ref",
        "return",
        "Self",
        "self",
        "static",
        "struct",
        "super",
        "trait",
        "true",
        "try",
        "type",
        "typeof",
        "unsafe",
        "unsized",
        "use",
        "virtual",
        "where",
        "while",
        "yield",
    ];
    let ghost kv = rust_keywords();
    assert(kws@.map_values(|x: &str| x@) =~= kv);
    let w = owned(word);
    let mut i: usize = 0;
    while i < 52
        invariant
            i <= 52,
            kv == rust_keywords(),
            kws@.map_values(|x: &str| x@) == kv,
            w@ == word@,
            forall|k: int| 0 <= k < i ==> kv[k] != word@,
        decreases 52 - i,
    {
        assert(kv[i as int] == kws@[i as int]@);
        if owned(kws[i]) == w {
            return true;
        }
        i = i + 1;
    }
    false
}

fn plain_ident_at(t: &Vec<AttrToken>, i: usize) -> (r: Option<&String>)
    ensures
        r is Some <==> (i < t@.len() && is_plain_ident(t@[i as int])),
        r matches Some(s) ==> t@[i as int] == AttrToken::Ident(*s),
{
    if i >= t.len() {
        return None;
    }
    match &t[i] {
        AttrToken::Ident(s) => if is_keyword(s.as_str()) {
            None
        } else {
            Some(s)
        },
        _ => None,
    }
}

fn punct_at(t: &Vec<AttrToken>, i: usize, c: char) -> (r: bool)
    ensures
        r == (i < t@.len() && is_punct(t@[i as int], c)),
{
    if i >= t.len() {
        return false;
    }
    match &t[i] {
        AttrToken::Punct(p) => *p == c,
        _ => false,
    }
}

fn literal_len_at(t: &Vec<AttrToken>, i: usize) -> (r: usize)
    ensures
        r == literal_len(t@, i as int),
{
    if i >= t.len() {
        return 0;
    }
    match &t[i] {
        AttrToken::StrLit(_) => 1,
        AttrToken::NumLit(_) => 1,
        AttrToken::OtherLit(_) => 1,
        AttrToken::Ident(s) => if *s == owned("true") || *s == owned("false") {
            1
        } else {
            0
        },
        AttrToken::Punct(c) => if *c == '-' && i + 1 < t.len() {
            match &t[i + 1] {
                AttrToken::NumLit(_) => 2,
                _ => 0,
            }
        } else {
            0
        },
        _ => 0,
    }
}

fn parse_skip_list(g: &Vec<AttrToken>) -> (r: Option<Vec<String>>)
    ensures
        match skip_list(g@, 0) {
            Some(l) => r matches Some(v) && v@.map_values(|x: String| x@) == l,
            None => r is None,
        },
{
    let mut out: Vec<String> = Vec::new();
    let mut i: usize = 0;
    while i < g.len()
        invariant
            i <= g@.len() + 1,
            skip_list(g@, 0) == match skip_list(g@, i as int) {
                Some(l) => Some(out@.map_values(|x: String| x@) + l),
                None => None,
            },
        decreases g@.len() + 1 - i,
    {
        let ghost before = out@.map_values(|x: String| x@);
        match plain_ident_at(g, i) {
            None => {
                return None;
            },
            Some(s) => {
                out.push(owned(s.as_str()));
                assert(out@.map_values(|x: String| x@) =~= before.push(s@));
                if i + 1 >= g.len() {
                    assert(skip_list(g@, i as int) == Some(seq![s@]));
                    assert(before + seq![s@] =~= before.push(s@));
                    return Some(out);
                }
                if !punct_at(g, i + 1, ',') {
                    return None;
                }
                proof {
                    match skip_list(g@, i + 2) {
                        Some(l) => {
                            assert(before + (seq![s@] + l) =~= before.push(s@) + l);
                        },
                        None => {},
                    }
                }
                i = i + 2;
            },
        }
    }
    assert(skip_list(g@, i as int) == Some(Seq::<Seq<char>>::empty()));
    assert(out@.map_values(|x: String| x@) + Seq::<Seq<char>>::empty() =~= out@.map_values(
        |x: String| x@,
    ));
    Some(out)
}

impl InstrumentArg {
    /// Parse one argument of the attribute beginning at position `start`, and
    /// give the position after it.
    pub fn parse(tokens: &Vec<AttrToken>, start: usize) -> (r: Result<(InstrumentArg, usize), AttrError>)
        ensures
            match parse_arg(tokens@, start as int) {
                Ok((a, j)) => r matches Ok((x, k)) && arg_view(x) == a && k == j,
                Err(e) => r matches Err(x) && error_view(x) == e,
            },
    {
        let ident = match plain_ident_at(tokens, start) {
            Some(s) => s,
            None => {
                return Err(AttrError::Malformed);
            },
        };
        let count = tokens.len();
        assert(start < count);
        let kw = match keyword(ident.as_str()) {
            Ok(k) => k,
            Err(_) => {
                return Err(AttrError::UnknownAttribute(owned(ident.as_str())));
            },
        };
        match kw {
            ArgKeyword::Name => {
                if start + 1 >= tokens.len() || !punct_at(tokens, start + 1, '=') {
                    return Err(AttrError::Malformed);
                }
                if literal_len_at(tokens, start + 2) == 0 {
                    return Err(AttrError::Malformed);
                }
                match &tokens[start + 2] {
                    AttrToken::StrLit(v) => Ok((InstrumentArg::Name(owned(v.as_str())), start + 3)),
                    _ => Err(AttrError::ExpectedStringLiteral),
                }
            },
            ArgKeyword::Skip => {
                if start + 1 >= tokens.len() {
                    return Err(AttrError::Malformed);
                }
                match &tokens[start + 1] {
                    AttrToken::Paren(g) => match parse_skip_list(g) {
                        Some(l) => Ok((InstrumentArg::Skip(l), start + 2)),
                        None => Err(AttrError::Malformed),
                    },
                    _ => Err(AttrError::Malformed),
                }
            },
            ArgKeyword::SkipAll => Ok((InstrumentArg::SkipAll, start + 1)),
            ArgKeyword::RecordErr => Ok((InstrumentArg::RecordErr, start + 1)),
            ArgKeyword::Level => {
                if start + 1 >= tokens.len() || !punct_at(tokens, start + 1, '=') {
                    return Err(AttrError::Malformed);
                }
                let n = literal_len_at(tokens, start + 2);
                if n == 0 {
                    return Err(AttrError::Malformed);
                }
                Ok((InstrumentArg::Level, start + 2 + n))
            },
        }
    }
}

impl InstrumentArgs {
    /// Parse the argument list of the attribute: arguments separated by
    /// commas, a trailing comma allowed, and combine them as `from_args` does.
    pub fn parse(tokens: &Vec<AttrToken>) -> (r: Result<InstrumentArgs, AttrError>)
        ensures
            match parse_args_from(tokens@, 0) {
                Ok(av) => r matches Ok(a) && combines(a, av),
                Err(e) => r matches Err(x) && error_view(x) == e,
            },
    {
        let mut args: Vec<InstrumentArg> = Vec::new();
        let mut i: usize = 0;
        while i < tokens.len()
            invariant
                i <= tokens@.len(),
                parse_args_from(tokens@, 0) == match parse_args_from(tokens@, i as int) {
                    Ok(r) => Ok(arg_views(args@) + r),
                    Err(e) => Err(e),
                },
            decreases tokens@.len() - i,
        {
            let ghost before = arg_views(args@);
            let (a, j) = match InstrumentArg::parse(tokens, i) {
                Ok(p) => p,
                Err(e) => {
                    return Err(e);
                },
            };
            args.push(a);
            assert(arg_views(args@) =~= before.push(arg_view(a)));
            if j >= tokens.len() {
                assert(before + seq![arg_view(a)] =~= before.push(arg_view(a)));
                assert(parse_args_from(tokens@, 0) == Ok::<Seq<ArgView>, AttrErrorView>(arg_views(args@)));
                return Ok(InstrumentArgs::from_args(&args));
            }
            if !punct_at(tokens, j, ',') {
                return Err(AttrError::Malformed);
            }
            proof {
                match parse_args_from(tokens@, j + 1) {
                    Ok(r) => {
                        assert(before + (seq![arg_view(a)] + r) =~= before.push(arg_view(a)) + r);
                    },
                    Err(e) => {},
                }
            }
            i = j + 1;
        }
        assert(arg_views(args@) + Seq::<ArgView>::empty() =~= arg_views(args@));
        Ok(InstrumentArgs::from_args(&args))
    }
}

/// The arguments a span records: none with `skip_all`; otherwise every
/// argument, in order, that is not skipped.  An argument is named as written:
/// its identifier, `self` for the receiver, or the text of its pattern.
pub open spec fn spec_recorded(params: Seq<Seq<char>>, skip: Seq<Seq<char>>, skip_all: bool) -> Seq<
    Seq<char>,
>
    decreases params.len(),
{
    if skip_all || params.len() == 0 {
        Seq::empty()
    } else {
        spec_recorded(params.drop_last(), skip, skip_all) + if skip.contains(params.last()) {
            Seq::empty()
        } else {
            seq![params.last()]
        }
    }
}

fn skipped(skip: &Vec<String>, name: &String) -> (r: bool)
    ensures
        r == skip@.map_values(|x: String| x@).contains(name@),
{
    let ghost sv = skip@.map_values(|x: String| x@);
    let mut i: usize = 0;
    while i < skip.len()
        invariant
            i <= skip@.len(),
            sv == skip@.map_values(|x: String| x@),
            forall|k: int| 0 <= k < i ==> sv[k] != name@,
        decreases skip@.len() - i,
    {
        if skip[i] == *name {
            assert(sv[i as int] == name@);
            return true;
        }
        i = i + 1;
    }
    false
}

/// The names under which a span records the function's arguments.  Each
/// parameter is given as written: its identifier, `self` for the receiver, or
/// the text of a destructuring pattern.  Every parameter is recorded unless
/// `skip_all` is set or its name is in `skip`.
pub fn recorded_arguments(params: &Vec<String>, skip: &Vec<String>, skip_all: bool) -> (r: Vec<
    String,
>)
    ensures
        r@.map_values(|x: String| x@) == spec_recorded(
            params@.map_values(|x: String| x@),
            skip@.map_values(|x: String| x@),
            skip_all,
        ),
{
    let ghost pv = params@.map_values(|x: String| x@);
    let ghost sv = skip@.map_values(|x: String| x@);
    let mut out: Vec<String> = Vec::new();
    if skip_all {
        assert(out@.map_values(|x: String| x@) =~= Seq::<Seq<char>>::empty());
        return out;
    }
    let mut i: usize = 0;
    assert(pv.take(0) =~= Seq::<Seq<char>>::empty());
    while i < params.len()
        invariant
            i <= params@.len(),
            !skip_all,
            pv == params@.map_values(|x: String| x@),
            sv == skip@.map_values(|x: String| x@),
            out@.map_values(|x: String| x@) == spec_recorded(pv.take(i as int), sv, skip_all),
        decreases params@.len() - i,
    {
        let ghost before = out@.map_values(|x: String| x@);
        assert(pv.take(i + 1).drop_last() =~= pv.take(i as int));
        assert(pv.take(i + 1).last() == pv[i as int]);
        assert(pv[i as int] == params@[i as int]@);
        if !skipped(skip, &params[i]) {
            out.push(owned(params[i].as_str()));
            assert(out@.map_values(|x: String| x@) =~= before + seq![pv[i as int]]);
        } else {
            assert(before + Seq::<Seq<char>>::empty() =~= before);
        }
        i = i + 1;
    }
    assert(pv.take(i as int) =~= pv);
    out
}

/// A span records every argument that is not skipped and nothing else: unless
/// `skip_all` is set, a name is recorded exactly when some parameter has it and
/// the skip list does not.
pub proof fn lemma_records_all_unskipped(params: Seq<Seq<char>>, skip: Seq<Seq<char>>, p: Seq<char>)
    ensures
        spec_recorded(params, skip, false).contains(p) <==> (params.contains(p) && !skip.contains(
            p,
        )),
        spec_recorded(params, skip, true) == Seq::<Seq<char>>::empty(),
    decreases params.len(),
{
    if params.len() > 0 {
        let init = params.drop_last();
        lemma_records_all_unskipped(init, skip, p);
        let rest = spec_recorded(init, skip, false);
        let tail: Seq<Seq<char>> = if skip.contains(params.last()) {
            Seq::empty()
        } else {
            seq![params.last()]
        };
        assert(spec_recorded(params, skip, false) == rest + tail);
        if (rest + tail).contains(p) {
            let k = choose|k: int| 0 <= k < (rest + tail).len() && (rest + tail)[k] == p;
            if k >= rest.len() {
                assert(tail[k - rest.len()] == p);
                assert(params[params.len() - 1] == p);
            } else {
                assert(rest[k] == p);
                let j = choose|j: int| 0 <= j < init.len() && init[j] == p;
                assert(params[j] == p);
            }
        }
        if params.contains(p) && !skip.contains(p) {
            let j = choose|j: int| 0 <= j < params.len() && params[j] == p;
            if j == params.len() - 1 {
                assert((rest + tail)[rest.len() as int] == p);
            } else {
                assert(init[j] == p);
                let k = choose|k: int| 0 <= k < rest.len() && rest[k] == p;
                assert((rest + tail)[k] == p);
            }
        }
    }
}

/// The status a span records when the function returns, with `err` set or
/// not: an `Err` outcome (given by its error's text) under `err` records an
/// error status described by that text; otherwise the status is left as it is.
pub fn returned_status(record_err: bool, error: Option<&str>) -> (r: Option<SpanStatus>)
    ensures
        match error {
            Some(e) => if record_err {
                r matches Some(st) && is_error_status(st, e@)
            } else {
                r is None
            },
            None => r is None,
        },
{
    match error {
        Some(e) => if record_err {
            Some(error_status(e))
        } else {
            None
        },
        None => None,
    }
}

/// The span name: the custom name when given, the function's name otherwise.
pub fn span_name(fn_name: &str, custom: Option<&str>) -> (r: String)
    ensures
        r@ == match custom {
            Some(c) => c@,
            None => fn_name@,
        },
{
    match custom {
        Some(c) => owned(c),
        None => owned(fn_name),
    }
}

} // verus!
