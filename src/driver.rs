use vstd::prelude::*;
use crate::diagnostics::Errors;
use crate::files::Files;
use crate::pipeline::{
    parse_program, parsed, registered, some_raises_internal, InternalError, ParseResult, Program,
    SourceFile,
};
use crate::stages::{check_program, checked, passes_total, Passes};

verus! {

/// `r` is a result that compiling `prog` can have: the checked program, encoded.
pub open spec fn compiled<P, A, E, N, T, H, C, U, FE, FN, FT, FH, FC, FB>(
    ps: Passes<FE, FN, FT, FH, FC>,
    encode: FB,
    prog: Result<P, Errors>,
    sender: Option<A>,
    r: Result<Vec<U>, Errors>,
) -> bool where
    FE: Fn(P, Option<A>) -> (E, Errors),
    FN: Fn(E, Errors) -> (N, Errors),
    FT: Fn(N, Errors) -> (T, Errors),
    FH: Fn(T) -> (H, Errors),
    FC: Fn(Errors, H) -> (C, Errors),
    FB: Fn(C) -> Result<Vec<U>, Errors>,
 {
    exists|cr: Result<C, Errors>|
        checked::<P, A, E, N, T, H, C, FE, FN, FT, FH, FC>(ps, prog, sender, cr) && match cr {
            Err(es) => r == Err::<Vec<U>, Errors>(es),
            Ok(c) => encode.ensures((c,), r),
        }
}

/// Check `prog`, then encode it to compiled units.
pub fn compile_program<P, A, E, N, T, H, C, U, FE, FN, FT, FH, FC, FB>(
    ps: &Passes<FE, FN, FT, FH, FC>,
    encode: &FB,
    prog: Result<P, Errors>,
    sender_opt: Option<A>,
) -> (r: Result<Vec<U>, Errors>) where
    FE: Fn(P, Option<A>) -> (E, Errors),
    FN: Fn(E, Errors) -> (N, Errors),
    FT: Fn(N, Errors) -> (T, Errors),
    FH: Fn(T) -> (H, Errors),
    FC: Fn(Errors, H) -> (C, Errors),
    FB: Fn(C) -> Result<Vec<U>, Errors>,

    requires
        passes_total::<P, A, E, N, T, H, C, FE, FN, FT, FH, FC>(*ps),
        forall|c: C| encode.requires((c,)),
    ensures
        compiled::<P, A, E, N, T, H, C, U, FE, FN, FT, FH, FC, FB>(*ps, *encode, prog, sender_opt, r),
{
    let ghost prog0 = prog;
    let ghost sender0 = sender_opt;
    let cr = check_program(ps, prog, sender_opt);
    let ghost cr0 = cr;
    let r = match cr {
        Ok(cprog) => encode(cprog),
        Err(es) => Err(es),
    };
    assert(checked::<P, A, E, N, T, H, C, FE, FN, FT, FH, FC>(*ps, prog0, sender0, cr0));
    r
}

/// Load, sanitize and parse the targets and dependencies, then check them through the
/// passes without producing output. The registry comes back for rendering diagnostics.
pub fn move_check<D, A, E, N, T, H, C, F, FE, FN, FT, FH, FC>(
    targets: &Vec<SourceFile>,
    deps: &Vec<SourceFile>,
    sender_opt: Option<A>,
    parser: &F,
    ps: &Passes<FE, FN, FT, FH, FC>,
) -> (r: Result<(Files, Result<(), Errors>), InternalError>) where
    F: Fn(&str, &str) -> ParseResult<D>,
    FE: Fn(Program<D>, Option<A>) -> (E, Errors),
    FN: Fn(E, Errors) -> (N, Errors),
    FT: Fn(N, Errors) -> (T, Errors),
    FH: Fn(T) -> (H, Errors),
    FC: Fn(Errors, H) -> (C, Errors),

    requires
        forall|f: &str, t: &str| parser.requires((f, t)),
        passes_total::<Program<D>, A, E, N, T, H, C, FE, FN, FT, FH, FC>(*ps),
    ensures
        r matches Ok((_, res)) ==> exists|pres: Result<Program<D>, Errors>, cr: Result<C, Errors>|
            parsed(*parser, targets@, deps@, pres) && checked::<
                Program<D>,
                A,
                E,
                N,
                T,
                H,
                C,
                FE,
                FN,
                FT,
                FH,
                FC,
            >(*ps, pres, sender_opt, cr) && match cr {
                Ok(_) => res is Ok,
                Err(es) => res == Err::<(), Errors>(es),
            },
        r matches Ok((files, _)) ==> files@ == registered(targets@, deps@),
        r is Err ==> some_raises_internal(*parser, targets@, deps@),
{
    let ghost sender0 = sender_opt;
    let (files, pprog_res) = parse_program(targets, deps, parser)?;
    let ghost pres = pprog_res;
    let cr = check_program(ps, pprog_res, sender_opt);
    let ghost cr0 = cr;
    let res = match cr {
        Err(errors) => Err(errors),
        Ok(_) => Ok(()),
    };
    assert(parsed(*parser, targets@, deps@, pres));
    assert(checked::<Program<D>, A, E, N, T, H, C, FE, FN, FT, FH, FC>(*ps, pres, sender0, cr0));
    Ok((files, res))
}

/// Load, sanitize and parse the targets and dependencies, check them, and encode them to
/// compiled units. The registry comes back for rendering diagnostics.
pub fn move_compile<D, A, E, N, T, H, C, U, F, FE, FN, FT, FH, FC, FB>(
    targets: &Vec<SourceFile>,
    deps: &Vec<SourceFile>,
    sender_opt: Option<A>,
    parser: &F,
    ps: &Passes<FE, FN, FT, FH, FC>,
    encode: &FB,
) -> (r: Result<(Files, Result<Vec<U>, Errors>), InternalError>) where
    F: Fn(&str, &str) -> ParseResult<D>,
    FE: Fn(Program<D>, Option<A>) -> (E, Errors),
    FN: Fn(E, Errors) -> (N, Errors),
    FT: Fn(N, Errors) -> (T, Errors),
    FH: Fn(T) -> (H, Errors),
    FC: Fn(Errors, H) -> (C, Errors),
    FB: Fn(C) -> Result<Vec<U>, Errors>,

    requires
        forall|f: &str, t: &str| parser.requires((f, t)),
        passes_total::<Program<D>, A, E, N, T, H, C, FE, FN, FT, FH, FC>(*ps),
        forall|c: C| encode.requires((c,)),
    ensures
        r matches Ok((_, res)) ==> exists|pres: Result<Program<D>, Errors>|
            parsed(*parser, targets@, deps@, pres) && compiled::<
                Program<D>,
                A,
                E,
                N,
                T,
                H,
                C,
                U,
                FE,
                FN,
                FT,
                FH,
                FC,
                FB,
            >(*ps, *encode, pres, sender_opt, res),
        r matches Ok((files, _)) ==> files@ == registered(targets@, deps@),
        r is Err ==> some_raises_internal(*parser, targets@, deps@),
{
    let (files, pprog_res) = parse_program(targets, deps, parser)?;
    let ghost pres = pprog_res;
    let res = compile_program(ps, encode, pprog_res, sender_opt);
    assert(parsed(*parser, targets@, deps@, pres));
    Ok((files, res))
}

/// Re-run the output validator over compiled units. Where it raises internal errors, they
/// come back with the registry, to be reported like a pipeline failure.
pub fn sanity_check_compiled_units<U, FV: Fn(Vec<U>) -> (Vec<U>, Errors)>(
    files: Files,
    compiled_units: Vec<U>,
    verify_units: &FV,
) -> (r: Result<(), (Files, Errors)>)
    requires
        forall|us: Vec<U>| verify_units.requires((us,)),
    ensures
        exists|vu: Vec<U>, ice: Errors|
            verify_units.ensures((compiled_units,), (vu, ice)) && if ice@.len() == 0 {
                r is Ok
            } else {
                r == Err::<(), (Files, Errors)>((files, ice))
            },
{
    let (_, ice_errors) = verify_units(compiled_units);
    if ice_errors.len() > 0 {
        Err((files, ice_errors))
    } else {
        Ok(())
    }
}

} // verus!
