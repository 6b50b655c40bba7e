use vstd::prelude::*;
use crate::diagnostics::{errors_view, Errors};

verus! {

/// Succeed on an empty batch; otherwise fail with it.
pub fn check_errors(errors: Errors) -> (r: Result<(), Errors>)
    ensures
        errors@.len() == 0 <==> r is Ok,
        r matches Err(es) ==> es == errors,
{
    if errors.len() == 0 {
        Ok(())
    } else {
        Err(errors)
    }
}

/// The semantic passes, in order: expansion (with an optional default sender), naming
/// resolution, type checking, lowering, and control-flow-graph construction. Each pass
/// hands on the diagnostics gathered so far together with its own.
pub struct Passes<FE, FN, FT, FH, FC> {
    pub expand: FE,
    pub name: FN,
    pub type_check: FT,
    pub lower: FH,
    pub build_cfg: FC,
}

impl<FE, FN, FT, FH, FC> Passes<FE, FN, FT, FH, FC> {
    pub fn new(expand: FE, name: FN, type_check: FT, lower: FH, build_cfg: FC) -> (r: Self)
        ensures
            r.expand == expand,
            r.name == name,
            r.type_check == type_check,
            r.lower == lower,
            r.build_cfg == build_cfg,
    {
        Passes { expand, name, type_check, lower, build_cfg }
    }
}

/// Every pass accepts every input.
pub open spec fn passes_total<P, A, E, N, T, H, C, FE, FN, FT, FH, FC>(
    ps: Passes<FE, FN, FT, FH, FC>,
) -> bool where
    FE: Fn(P, Option<A>) -> (E, Errors),
    FN: Fn(E, Errors) -> (N, Errors),
    FT: Fn(N, Errors) -> (T, Errors),
    FH: Fn(T) -> (H, Errors),
    FC: Fn(Errors, H) -> (C, Errors),
 {
    &&& forall|p: P, a: Option<A>| ps.expand.requires((p, a))
    &&& forall|e: E, d: Errors| ps.name.requires((e, d))
    &&& forall|n: N, d: Errors| ps.type_check.requires((n, d))
    &&& forall|t: T| ps.lower.requires((t,))
    &&& forall|d: Errors, h: H| ps.build_cfg.requires((d, h))
}

/// After type checking gave `t` with batch `d3`: stop on a non-empty batch; otherwise lower,
/// build the control-flow graph, and stop again on a non-empty batch.
pub open spec fn checked_from_typed<T, H, C, FH, FC>(
    lower: FH,
    build_cfg: FC,
    t: T,
    d3: Errors,
    r: Result<C, Errors>,
) -> bool where FH: Fn(T) -> (H, Errors), FC: Fn(Errors, H) -> (C, Errors) {
    if d3@.len() > 0 {
        r == Err::<C, Errors>(d3)
    } else {
        exists|h: H, d4: Errors, c: C, d5: Errors|
            lower.ensures((t,), (h, d4)) && build_cfg.ensures((d4, h), (c, d5)) && if d5@.len()
                > 0 {
                r == Err::<C, Errors>(d5)
            } else {
                r == Ok::<C, Errors>(c)
            }
    }
}

/// `r` is a result that checking `prog` through the passes can have.
pub open spec fn checked<P, A, E, N, T, H, C, FE, FN, FT, FH, FC>(
    ps: Passes<FE, FN, FT, FH, FC>,
    prog: Result<P, Errors>,
    sender: Option<A>,
    r: Result<C, Errors>,
) -> bool where
    FE: Fn(P, Option<A>) -> (E, Errors),
    FN: Fn(E, Errors) -> (N, Errors),
    FT: Fn(N, Errors) -> (T, Errors),
    FH: Fn(T) -> (H, Errors),
    FC: Fn(Errors, H) -> (C, Errors),
 {
    match prog {
        Err(es) => r == Err::<C, Errors>(es),
        Ok(p) => exists|e: E, d1: Errors, n: N, d2: Errors, t: T, d3: Errors|
            ps.expand.ensures((p, sender), (e, d1)) && ps.name.ensures((e, d1), (n, d2))
                && ps.type_check.ensures((n, d2), (t, d3)) && checked_from_typed::<T, H, C, FH, FC>(
                ps.lower,
                ps.build_cfg,
                t,
                d3,
                r,
            ),
    }
}

/// Run the passes over `prog`, halting after type checking and again after control-flow
/// construction if any diagnostic has been gathered.
pub fn check_program<P, A, E, N, T, H, C, FE, FN, FT, FH, FC>(
    ps: &Passes<FE, FN, FT, FH, FC>,
    prog: Result<P, Errors>,
    sender_opt: Option<A>,
) -> (r: Result<C, Errors>) where
    FE: Fn(P, Option<A>) -> (E, Errors),
    FN: Fn(E, Errors) -> (N, Errors),
    FT: Fn(N, Errors) -> (T, Errors),
    FH: Fn(T) -> (H, Errors),
    FC: Fn(Errors, H) -> (C, Errors),

    requires
        passes_total::<P, A, E, N, T, H, C, FE, FN, FT, FH, FC>(*ps),
    ensures
        checked::<P, A, E, N, T, H, C, FE, FN, FT, FH, FC>(*ps, prog, sender_opt, r),
{
    let p = match prog {
        Ok(p) => p,
        Err(es) => return Err(es),
    };
    let (eprog, errors) = (ps.expand)(p, sender_opt);
    let (nprog, errors) = (ps.name)(eprog, errors);
    let (tprog, errors) = (ps.type_check)(nprog, errors);
    let ghost t0 = tprog;
    let ghost d3 = errors;
    if errors.len() > 0 {
        assert(checked_from_typed::<T, H, C, FH, FC>(ps.lower, ps.build_cfg, t0, d3, Err(errors)));
        return Err(errors);
    }
    let (hprog, errors) = (ps.lower)(tprog);
    let ghost h0 = hprog;
    let ghost d4 = errors;
    let (cprog, errors) = (ps.build_cfg)(errors, hprog);
    let r = if errors.len() > 0 {
        Err(errors)
    } else {
        Ok(cprog)
    };
    assert(checked_from_typed::<T, H, C, FH, FC>(ps.lower, ps.build_cfg, t0, d3, r));
    r
}

} // verus!

verus! {

/// A batch that is not empty after type checking stops the passes there: the result is
/// that batch, and lowering and control-flow construction play no part in it.
pub proof fn lemma_gate_after_typing<T, H, C, FH, FC>(
    lower: FH,
    build_cfg: FC,
    t: T,
    d3: Errors,
    r: Result<C, Errors>,
) where FH: Fn(T) -> (H, Errors), FC: Fn(Errors, H) -> (C, Errors)
    requires
        d3@.len() > 0,
        checked_from_typed::<T, H, C, FH, FC>(lower, build_cfg, t, d3, r),
    ensures
        r == Err::<C, Errors>(d3),
{
}

/// Diagnostics gathered before the passes are handed back unchanged, and no pass counts.
pub proof fn lemma_failed_program_passes_through<P, A, E, N, T, H, C, FE, FN, FT, FH, FC>(
    ps: Passes<FE, FN, FT, FH, FC>,
    es: Errors,
    sender: Option<A>,
    r: Result<C, Errors>,
) where
    FE: Fn(P, Option<A>) -> (E, Errors),
    FN: Fn(E, Errors) -> (N, Errors),
    FT: Fn(N, Errors) -> (T, Errors),
    FH: Fn(T) -> (H, Errors),
    FC: Fn(Errors, H) -> (C, Errors),

    requires
        checked::<P, A, E, N, T, H, C, FE, FN, FT, FH, FC>(ps, Err(es), sender, r),
    ensures
        r == Err::<C, Errors>(es),
{
}

} // verus!
