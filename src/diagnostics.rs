use vstd::prelude::*;
use vstd::string::*;
use lalrpop_util::ParseError;

verus! {

/// lalrpop_util's ParseError, the grammar parser's failure, declared with its variants and
/// their public fields visible so that verified code can match on it.
#[verifier::external_type_specification]
#[verifier::reject_recursive_types(L)]
#[verifier::reject_recursive_types(T)]
#[verifier::reject_recursive_types(E)]
pub struct ExParseError<L, T, E>(ParseError<L, T, E>);

/// A source location: a file and a span of offsets into its sanitized text.
#[derive(Debug)]
pub struct Loc {
    pub file: String,
    pub start: u32,
    pub end: u32,
}

impl Loc {
    pub fn new(file: &str, start: u32, end: u32) -> (r: Loc)
        ensures
            r.file@ == file@,
            r.start == start,
            r.end == end,
    {
        Loc { file: file.to_owned(), start, end }
    }
}

/// One reportable problem: a primary location and message, then auxiliary notes.
pub type Error = Vec<(Loc, String)>;

/// The diagnostics gathered by a phase, in order.
pub type Errors = Vec<Error>;

/// One entry of a diagnostic as plain values: file, start, end, message.
pub open spec fn entry_view(x: (Loc, String)) -> (Seq<char>, u32, u32, Seq<char>) {
    (x.0.file@, x.0.start, x.0.end, x.1@)
}

pub open spec fn error_view(e: Error) -> Seq<(Seq<char>, u32, u32, Seq<char>)> {
    e@.map_values(|x: (Loc, String)| entry_view(x))
}

pub open spec fn errors_view(es: Errors) -> Seq<Seq<(Seq<char>, u32, u32, Seq<char>)>> {
    es@.map_values(|e: Error| error_view(e))
}

/// The expected tokens, each preceded by a space and followed by a comma.
pub open spec fn expected_text(expected: Seq<String>) -> Seq<char>
    decreases expected.len(),
{
    if expected.len() == 0 {
        seq![]
    } else {
        expected_text(expected.drop_last()) + " "@ + expected.last()@ + ","@
    }
}

pub open spec fn expected_message(expected: Seq<String>) -> Seq<char> {
    "Expected: "@ + expected_text(expected)
}

/// The diagnostic that a parse failure of `file` stands for.
pub open spec fn parse_failure_view(file: Seq<char>, e: ParseError<usize, String, String>) -> Seq<
    (Seq<char>, u32, u32, Seq<char>),
> {
    match e {
        ParseError::InvalidToken { location } => seq![
            (file, location as u32, location as u32, "Invalid Token"@),
        ],
        ParseError::UnrecognizedToken { token, expected } => seq![
            (file, token.0 as u32, token.2 as u32, "Unrecognized Token: "@ + token.1@),
            (file, token.0 as u32, token.2 as u32, expected_message(expected@)),
        ],
        ParseError::UnrecognizedEOF { location, expected } => seq![
            (file, location as u32, location as u32, "Unrecognized End of File"@),
            (file, location as u32, location as u32, expected_message(expected@)),
        ],
        ParseError::ExtraToken { token } => seq![
            (file, token.0 as u32, token.2 as u32, "Unexpected Extra Token: "@ + token.1@),
        ],
        ParseError::User { .. } => seq![],
    }
}

fn format_expected(expected: &Vec<String>) -> (r: String)
    ensures
        r@ == expected_message(expected@),
{
    let mut acc = "Expected: ".to_owned();
    let mut i: usize = 0;
    while i < expected.len()
        invariant
            i <= expected@.len(),
            acc@ == expected_message(expected@.subrange(0, i as int)),
        decreases expected@.len() - i,
    {
        acc.append(" ");
        acc.append(expected[i].as_str());
        acc.append(",");
        proof {
            let pre = expected@.subrange(0, i + 1);
            assert(pre.drop_last() =~= expected@.subrange(0, i as int));
        }
        i = i + 1;
    }
    assert(expected@.subrange(0, expected@.len() as int) =~= expected@);
    acc
}

/// Turn a grammar-level parse failure of `file` into a diagnostic. A failure that the
/// parser's own actions raised has no display rule and is not accepted here.
pub fn parsing_error(file: &str, e: ParseError<usize, String, String>) -> (r: Error)
    requires
        !(e is User),
    ensures
        error_view(r) == parse_failure_view(file@, e),
{
    let ghost e0 = e;
    match e {
        ParseError::InvalidToken { location: l } => {
            let loc = Loc::new(file, l as u32, l as u32);
            let r = vec![(loc, "Invalid Token".to_owned())];
            assert(error_view(r) =~= parse_failure_view(file@, e0));
            r
        },
        ParseError::UnrecognizedToken { token: (l, tok, r), expected } => {
            let mut found = "Unrecognized Token: ".to_owned();
            found.append(tok.as_str());
            let res = vec![
                (Loc::new(file, l as u32, r as u32), found),
                (Loc::new(file, l as u32, r as u32), format_expected(&expected)),
            ];
            assert(error_view(res) =~= parse_failure_view(file@, e0));
            res
        },
        ParseError::UnrecognizedEOF { location: l, expected } => {
            let res = vec![
                (Loc::new(file, l as u32, l as u32), "Unrecognized End of File".to_owned()),
                (Loc::new(file, l as u32, l as u32), format_expected(&expected)),
            ];
            assert(error_view(res) =~= parse_failure_view(file@, e0));
            res
        },
        ParseError::ExtraToken { token: (l, tok, r) } => {
            let mut extra = "Unexpected Extra Token: ".to_owned();
            extra.append(tok.as_str());
            let res = vec![(Loc::new(file, l as u32, r as u32), extra)];
            assert(error_view(res) =~= parse_failure_view(file@, e0));
            res
        },
        ParseError::User { .. } => {
            proof {
                assert(false);
            }
            Vec::new()
        },
    }
}

} // verus!
