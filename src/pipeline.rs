use vstd::prelude::*;
use lalrpop_util::ParseError;
use crate::diagnostics::{error_view, errors_view, parse_failure_view, parsing_error, Error, Errors};
use crate::files::Files;

use crate::sanitize::{
    all_permitted, first_forbidden, invalid_char_view, strip_comments_and_verify, stripped,
};

verus! {

/// A failure that the system has no display rule for: a bug of the compiler, not of its input.
#[derive(Debug)]
pub struct InternalError {
    pub message: String,
}

/// What the grammar parser hands back for one file.
pub type ParseResult<D> = Result<D, ParseError<usize, String, String>>;

/// The outcome of loading one file: its definition, if it parsed, and its diagnostics.
pub type FileOutcome<D> = (Option<D>, Errors);

pub type ErrorView = Seq<(Seq<char>, u32, u32, Seq<char>)>;

/// The file outcome (definition, diagnostics) that a parser result stands for, or
/// `None` where the parser raised a failure of its own.
pub open spec fn outcome_of_parse<D>(file: Seq<char>, pr: ParseResult<D>) -> Option<
    (Option<D>, Seq<ErrorView>),
> {
    match pr {
        Ok(d) => Some((Some(d), seq![])),
        Err(e) => if e is User {
            None
        } else {
            Some((None, seq![parse_failure_view(file, e)]))
        },
    }
}

pub open spec fn outcome_view<D>(out: FileOutcome<D>) -> (Option<D>, Seq<ErrorView>) {
    (out.0, errors_view(out.1))
}

/// `r` is what loading a file of name `file` gives when its parser hands back `pr`.
pub open spec fn loaded_as<D>(
    file: Seq<char>,
    pr: ParseResult<D>,
    r: Result<FileOutcome<D>, InternalError>,
) -> bool {
    match outcome_of_parse(file, pr) {
        Some(o) => (r matches Ok(out) && outcome_view(out) == o),
        None => r is Err,
    }
}

/// Sanitize and parse one file whose contents are `source`, registering its sanitized
/// text. A file that fails sanitization is neither parsed nor registered.
pub fn parse_file<D, F: Fn(&str, &str) -> ParseResult<D>>(
    files: &mut Files,
    fname: &str,
    source: &str,
    parser: &F,
) -> (r: Result<FileOutcome<D>, InternalError>)
    requires
        forall|f: &str, t: &str| parser.requires((f, t)),
    ensures
        !all_permitted(source@) ==> final(files)@ == old(files)@ && (r matches Ok(out) && exists|
            i: int,
        | first_forbidden(source@, i) && outcome_view(out) == (
            None::<D>,
            seq![invalid_char_view(fname@, source@, i)],
        )),
        all_permitted(source@) ==> final(files)@ == old(files)@.insert(fname@, stripped(source@))
            && exists|t: &str, pr: ParseResult<D>|
            t@ == stripped(source@) && parser.ensures((fname, t), pr) && loaded_as(
                fname@,
                pr,
                r,
            ),
{
    let no_comments_buffer = match strip_comments_and_verify(fname, source) {
        Err(err) => {
            let errors: Errors = vec![err];
            proof {
                let e = choose|i: int| first_forbidden(source@, i) && error_view(err) == invalid_char_view(fname@, source@, i);
                assert(errors_view(errors) =~= seq![invalid_char_view(fname@, source@, e)]);
            }
            return Ok((None, errors));
        },
        Ok(t) => t,
    };
    let pr = parser(fname, no_comments_buffer.as_str());
    let ghost pr0 = pr;
    let res = match pr {
        Ok(def) => {
            let errors: Errors = Vec::new();
            assert(errors_view(errors) =~= seq![]);
            Ok((Some(def), errors))
        },
        Err(ParseError::User { error }) => Err(InternalError { message: error }),
        Err(err) => {
            let errors: Errors = vec![parsing_error(fname, err)];
            assert(errors_view(errors) =~= seq![parse_failure_view(fname@, err)]);
            Ok((None, errors))
        },
    };
    files.insert(fname, no_comments_buffer);
    res
}

} // verus!

verus! {

/// A file as read from storage: its name and its raw contents.
#[derive(Debug)]
pub struct SourceFile {
    pub name: String,
    pub contents: String,
}

/// The parsed definitions of the target files, then those of the dependency files.
pub struct Program<D> {
    pub source_definitions: Vec<D>,
    pub lib_definitions: Vec<D>,
}

/// `out` is an outcome (definition, diagnostics) that loading the file `name` with
/// contents `contents` can have, given the parser.
pub open spec fn valid_outcome<D, F: Fn(&str, &str) -> ParseResult<D>>(
    parser: F,
    name: Seq<char>,
    contents: Seq<char>,
    out: (Option<D>, Seq<ErrorView>),
) -> bool {
    if !all_permitted(contents) {
        exists|i: int|
            first_forbidden(contents, i) && out == (
                None::<D>,
                seq![invalid_char_view(name, contents, i)],
            )
    } else {
        exists|f: &str, t: &str, pr: ParseResult<D>|
            f@ == name && t@ == stripped(contents) && parser.ensures((f, t), pr)
                && outcome_of_parse(name, pr) == Some(out)
    }
}

/// Every file of `fs` has the matching outcome in `outs`.
pub open spec fn valid_outcomes<D, F: Fn(&str, &str) -> ParseResult<D>>(
    parser: F,
    fs: Seq<SourceFile>,
    outs: Seq<(Option<D>, Seq<ErrorView>)>,
) -> bool {
    outs.len() == fs.len() && forall|k: int|
        0 <= k < fs.len() ==> valid_outcome(parser, fs[k].name@, fs[k].contents@, #[trigger] outs[k])
}

/// The definitions of the files that parsed, in order.
pub open spec fn defs_of<D>(outs: Seq<(Option<D>, Seq<ErrorView>)>) -> Seq<D>
    decreases outs.len(),
{
    if outs.len() == 0 {
        seq![]
    } else {
        match outs.last().0 {
            Some(d) => defs_of(outs.drop_last()).push(d),
            None => defs_of(outs.drop_last()),
        }
    }
}

/// The diagnostics of all files, in order.
pub open spec fn errors_of<D>(outs: Seq<(Option<D>, Seq<ErrorView>)>) -> Seq<ErrorView>
    decreases outs.len(),
{
    if outs.len() == 0 {
        seq![]
    } else {
        errors_of(outs.drop_last()) + outs.last().1
    }
}

/// What assembling the outcomes of the targets and of the dependencies gives.
pub open spec fn assembled<D>(
    touts: Seq<(Option<D>, Seq<ErrorView>)>,
    douts: Seq<(Option<D>, Seq<ErrorView>)>,
    res: Result<Program<D>, Errors>,
) -> bool {
    let all = errors_of(touts) + errors_of(douts);
    if all.len() == 0 {
        res matches Ok(p) && p.source_definitions@ == defs_of(touts) && p.lib_definitions@
            == defs_of(douts)
    } else {
        res matches Err(es) && errors_view(es) == all
    }
}

/// The parser can raise a failure of its own on the sanitized text of `sf`.
pub open spec fn raises_internal<D, F: Fn(&str, &str) -> ParseResult<D>>(
    parser: F,
    sf: SourceFile,
) -> bool {
    all_permitted(sf.contents@) && exists|f: &str, t: &str, pr: ParseResult<D>|
        f@ == sf.name@ && t@ == stripped(sf.contents@) && parser.ensures((f, t), pr) && (
        pr matches Err(e) && e is User)
}

/// The registry `m` after registering, in order, the sanitized text of each file of `fs`
/// that passes validation.
pub open spec fn register_all(m: Map<Seq<char>, Seq<char>>, fs: Seq<SourceFile>) -> Map<
    Seq<char>,
    Seq<char>,
>
    decreases fs.len(),
{
    if fs.len() == 0 {
        m
    } else {
        let before = register_all(m, fs.drop_last());
        if all_permitted(fs.last().contents@) {
            before.insert(fs.last().name@, stripped(fs.last().contents@))
        } else {
            before
        }
    }
}

fn parse_files<D, F: Fn(&str, &str) -> ParseResult<D>>(
    files: &mut Files,
    fs: &Vec<SourceFile>,
    parser: &F,
    defs: &mut Vec<D>,
    errors: &mut Errors,
) -> (r: Result<(), InternalError>)
    requires
        forall|f: &str, t: &str| parser.requires((f, t)),
    ensures
        r is Ok ==> exists|outs: Seq<(Option<D>, Seq<ErrorView>)>|
            valid_outcomes(*parser, fs@, outs) && final(defs)@ == old(defs)@ + defs_of(outs)
                && errors_view(*final(errors)) == errors_view(*old(errors)) + errors_of(outs),
        r is Ok ==> final(files)@ == register_all(old(files)@, fs@),
        r is Err ==> exists|k: int| 0 <= k < fs@.len() && raises_internal(*parser, #[trigger] fs@[k]),
{
    let ghost files0 = files@;
    let ghost outs: Seq<(Option<D>, Seq<ErrorView>)> = seq![];
    let ghost defs0 = defs@;
    let ghost errors0 = errors_view(*errors);
    let mut k: usize = 0;
    while k < fs.len()
        invariant
            forall|f: &str, t: &str| parser.requires((f, t)),
            k <= fs@.len(),
            valid_outcomes(*parser, fs@.subrange(0, k as int), outs),
            defs@ == defs0 + defs_of(outs),
            errors_view(*errors) == errors0 + errors_of(outs),
            files@ == register_all(files0, fs@.subrange(0, k as int)),
        decreases fs@.len() - k,
    {
        let sf = &fs[k];
        let ghost pre = files@;
        let loaded = parse_file(files, sf.name.as_str(), sf.contents.as_str(), parser);
        proof {
            assert(fs@.subrange(0, k + 1).drop_last() =~= fs@.subrange(0, k as int));
        }
        let (def_opt, mut es) = match loaded {
            Ok(o) => o,
            Err(ie) => {
                assert(raises_internal(*parser, fs@[k as int]));
                return Err(ie);
            },
        };
        let ghost out = outcome_view((def_opt, es));
        proof {
            assert(valid_outcome(*parser, sf.name@, sf.contents@, out));
        }
        let ghost es_view = errors_view(es);
        let ghost before = errors_view(*errors);
        match def_opt {
            Some(def) => defs.push(def),
            None => {},
        }
        errors.append(&mut es);
        proof {
            let nouts = outs.push(out);
            assert(nouts.drop_last() =~= outs);
            assert(errors_view(*errors) =~= before + es_view);
            assert(defs@ =~= defs0 + defs_of(nouts));
            assert(errors_view(*errors) =~= errors0 + errors_of(nouts));
            assert forall|j: int| 0 <= j <= k implies valid_outcome(
                *parser,
                fs@.subrange(0, k + 1)[j].name@,
                fs@.subrange(0, k + 1)[j].contents@,
                #[trigger] nouts[j],
            ) by {
                if j < k {
                    assert(fs@.subrange(0, k as int)[j] == fs@.subrange(0, k + 1)[j]);
                }
            }
            outs = nouts;
        }
        k = k + 1;
    }
    assert(fs@.subrange(0, fs@.len() as int) =~= fs@);
    Ok(())
}

/// `res` is a result that loading and assembling the targets `ts` and the dependencies
/// `ds` can have.
pub open spec fn parsed<D, F: Fn(&str, &str) -> ParseResult<D>>(
    parser: F,
    ts: Seq<SourceFile>,
    ds: Seq<SourceFile>,
    res: Result<Program<D>, Errors>,
) -> bool {
    exists|touts: Seq<(Option<D>, Seq<ErrorView>)>, douts: Seq<(Option<D>, Seq<ErrorView>)>|
        valid_outcomes(parser, ts, touts) && valid_outcomes(parser, ds, douts) && assembled(
            touts,
            douts,
            res,
        )
}

/// The registry after loading the targets `ts`, then the dependencies `ds`.
pub open spec fn registered(ts: Seq<SourceFile>, ds: Seq<SourceFile>) -> Map<Seq<char>, Seq<char>> {
    register_all(register_all(Map::empty(), ts), ds)
}

/// Some file of `ts` or `ds` is one on which the parser can raise a failure of its own.
pub open spec fn some_raises_internal<D, F: Fn(&str, &str) -> ParseResult<D>>(
    parser: F,
    ts: Seq<SourceFile>,
    ds: Seq<SourceFile>,
) -> bool {
    (exists|k: int| 0 <= k < ts.len() && raises_internal(parser, #[trigger] ts[k])) || (exists|
        k: int,
    | 0 <= k < ds.len() && raises_internal(parser, #[trigger] ds[k]))
}

/// Load every target file, then every dependency file, gathering the diagnostics of all of
/// them before deciding: the program is built only where no file had any.
pub fn parse_program<D, F: Fn(&str, &str) -> ParseResult<D>>(
    targets: &Vec<SourceFile>,
    deps: &Vec<SourceFile>,
    parser: &F,
) -> (r: Result<(Files, Result<Program<D>, Errors>), InternalError>)
    requires
        forall|f: &str, t: &str| parser.requires((f, t)),
    ensures
        r matches Ok((_, res)) ==> parsed(*parser, targets@, deps@, res),
        r matches Ok((files, _)) ==> files@ == registered(targets@, deps@),
        r is Err ==> some_raises_internal(*parser, targets@, deps@),
{
    let mut files = Files::new();
    let mut source_definitions: Vec<D> = Vec::new();
    let mut lib_definitions: Vec<D> = Vec::new();
    let mut errors: Errors = Vec::new();
    assert(errors_view(errors) =~= seq![]);
    parse_files(&mut files, targets, parser, &mut source_definitions, &mut errors)?;
    let ghost touts = choose|outs: Seq<(Option<D>, Seq<ErrorView>)>|
        valid_outcomes(*parser, targets@, outs) && source_definitions@ == seq![] + defs_of(outs)
            && errors_view(errors) == seq![] + errors_of(outs);
    assert(source_definitions@ =~= defs_of(touts));
    parse_files(&mut files, deps, parser, &mut lib_definitions, &mut errors)?;
    let ghost douts = choose|outs: Seq<(Option<D>, Seq<ErrorView>)>|
        valid_outcomes(*parser, deps@, outs) && lib_definitions@ == seq![] + defs_of(outs)
            && errors_view(errors) == errors_of(touts) + errors_of(outs);
    assert(lib_definitions@ =~= defs_of(douts));
    let res = if errors.len() == 0 {
        Ok(Program { source_definitions, lib_definitions })
    } else {
        Err(errors)
    };
    assert(assembled(touts, douts, res));
    Ok((files, res))
}

} // verus!

verus! {

proof fn lemma_no_errors<D>(outs: Seq<(Option<D>, Seq<ErrorView>)>)
    requires
        forall|k: int| 0 <= k < outs.len() ==> (#[trigger] outs[k]).1.len() == 0,
    ensures
        errors_of(outs) == Seq::<ErrorView>::empty(),
    decreases outs.len(),
{
    if outs.len() > 0 {
        lemma_no_errors(outs.drop_last());
        assert(outs.last() == outs[outs.len() - 1]);
    }
}

proof fn lemma_errors_of_two<D>(outs: Seq<(Option<D>, Seq<ErrorView>)>, i: int, j: int, m: int)
    requires
        0 <= i < j < outs.len(),
        0 <= m <= outs.len(),
        forall|k: int| 0 <= k < outs.len() && k != i && k != j ==> (#[trigger] outs[k]).1.len() == 0,
    ensures
        errors_of(outs.subrange(0, m)) == (if m > i {
            outs[i].1
        } else {
            seq![]
        }) + (if m > j {
            outs[j].1
        } else {
            seq![]
        }),
    decreases m,
{
    if m > 0 {
        lemma_errors_of_two(outs, i, j, m - 1);
        let pre = outs.subrange(0, m);
        assert(pre.drop_last() =~= outs.subrange(0, m - 1));
        assert(pre.last() == outs[m - 1]);
        if m - 1 != i && m - 1 != j {
            assert(outs[m - 1].1 =~= seq![]);
        }
        assert(errors_of(pre) =~= (if m > i {
            outs[i].1
        } else {
            seq![]
        }) + (if m > j {
            outs[j].1
        } else {
            seq![]
        }));
    } else {
        assert(outs.subrange(0, 0) =~= seq![]);
    }
}

/// Diagnostics accumulate across files: where exactly target files `i` and `j` fail, the
/// batch holds their diagnostics, in order, and no program is built.
pub proof fn lemma_failed_files_accumulate<D>(
    touts: Seq<(Option<D>, Seq<ErrorView>)>,
    douts: Seq<(Option<D>, Seq<ErrorView>)>,
    res: Result<Program<D>, Errors>,
    i: int,
    j: int,
)
    requires
        0 <= i < j < touts.len(),
        touts[i].1.len() > 0,
        touts[j].1.len() > 0,
        forall|k: int| 0 <= k < touts.len() && k != i && k != j ==> (#[trigger] touts[k]).1.len() == 0,
        forall|k: int| 0 <= k < douts.len() ==> (#[trigger] douts[k]).1.len() == 0,
        assembled(touts, douts, res),
    ensures
        res matches Err(es) && errors_view(es) == touts[i].1 + touts[j].1,
{
    lemma_errors_of_two(touts, i, j, touts.len() as int);
    assert(touts.subrange(0, touts.len() as int) =~= touts);
    lemma_no_errors(douts);
    assert(errors_of(touts) + errors_of(douts) =~= touts[i].1 + touts[j].1);
}

proof fn lemma_defs_all_parsed<D>(outs: Seq<(Option<D>, Seq<ErrorView>)>)
    requires
        forall|k: int| 0 <= k < outs.len() ==> (#[trigger] outs[k]).0 is Some,
    ensures
        defs_of(outs) == outs.map_values(|o: (Option<D>, Seq<ErrorView>)| o.0->Some_0),
    decreases outs.len(),
{
    if outs.len() > 0 {
        lemma_defs_all_parsed(outs.drop_last());
        assert(outs.last() == outs[outs.len() - 1]);
        assert(defs_of(outs) =~= outs.map_values(|o: (Option<D>, Seq<ErrorView>)| o.0->Some_0));
    } else {
        assert(defs_of(outs) =~= outs.map_values(|o: (Option<D>, Seq<ErrorView>)| o.0->Some_0));
    }
}

/// Where every file parses, the program holds the definitions of the targets and of the
/// dependencies each in the order the files were given.
pub proof fn lemma_definitions_keep_order<D>(
    touts: Seq<(Option<D>, Seq<ErrorView>)>,
    douts: Seq<(Option<D>, Seq<ErrorView>)>,
    res: Result<Program<D>, Errors>,
)
    requires
        forall|k: int| 0 <= k < touts.len() ==> (#[trigger] touts[k]).0 is Some && touts[k].1.len() == 0,
        forall|k: int| 0 <= k < douts.len() ==> (#[trigger] douts[k]).0 is Some && douts[k].1.len() == 0,
        assembled(touts, douts, res),
    ensures
        res matches Ok(p) && p.source_definitions@ == touts.map_values(
            |o: (Option<D>, Seq<ErrorView>)| o.0->Some_0,
        ) && p.lib_definitions@ == douts.map_values(|o: (Option<D>, Seq<ErrorView>)| o.0->Some_0),
{
    lemma_no_errors(touts);
    lemma_no_errors(douts);
    lemma_defs_all_parsed(touts);
    lemma_defs_all_parsed(douts);
}

} // verus!
