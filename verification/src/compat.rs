use vstd::prelude::*;

use vstd::string::StrSliceExecFns;

use crate::btf::{Btf, BtfView, MAX_RESOLVE_DEPTH, spec_name_of_type, spec_resolve};
use crate::errors::BtfError;
use crate::types::{BtfParam, BtfType, BtfTypeV};

verus! {

// ---------------------------------------------------------------------------
// Flavor suffixes
// ---------------------------------------------------------------------------
/// Whether the triple-underscore flavor marker starts at position `i`.
pub open spec fn spec_marker_at(s: Seq<char>, i: int) -> bool {
    &&& 0 <= i
    &&& i + 3 <= s.len()
    &&& s[i] == '_'
    &&& s[i + 1] == '_'
    &&& s[i + 2] == '_'
}

/// Where the first flavor marker starts, or the length of the name if it
/// carries none.
pub open spec fn spec_flavorless_len(s: Seq<char>) -> int
    decreases s.len(),
{
    if s.len() < 3 {
        s.len() as int
    } else if s[0] == '_' && s[1] == '_' && s[2] == '_' {
        0
    } else {
        1 + spec_flavorless_len(s.drop_first())
    }
}

/// A name truncated at its first flavor marker: the part that identifies
/// the logical type across differently-flavored build units.
pub open spec fn spec_flavorless(s: Seq<char>) -> Seq<char> {
    s.take(spec_flavorless_len(s))
}

/// The cut sits at the first flavor marker: nothing before it is a marker,
/// and it is either the end of the name or a marker itself.
pub proof fn lemma_flavorless_len_props(s: Seq<char>)
    ensures
        0 <= spec_flavorless_len(s) <= s.len(),
        forall|j: int| 0 <= j < spec_flavorless_len(s) ==> !spec_marker_at(s, j),
        spec_flavorless_len(s) == s.len() || spec_marker_at(s, spec_flavorless_len(s)),
    decreases s.len(),
{
    if s.len() < 3 {
    } else if s[0] == '_' && s[1] == '_' && s[2] == '_' {
    } else {
        let tail = s.drop_first();
        lemma_flavorless_len_props(tail);
        let f = spec_flavorless_len(s);
        assert forall|j: int| 0 <= j < f implies !spec_marker_at(s, j) by {
            if j > 0 {
                assert(!spec_marker_at(tail, j - 1));
                assert(tail[j - 1] == s[j]);
                if j + 3 <= s.len() {
                    assert(tail[j] == s[j + 1]);
                    assert(tail[j + 1] == s[j + 2]);
                }
            }
        }
        if spec_flavorless_len(tail) != tail.len() {
            let ft = spec_flavorless_len(tail);
            assert(spec_marker_at(tail, ft));
            assert(tail[ft] == s[ft + 1]);
            assert(tail[ft + 1] == s[ft + 2]);
            assert(tail[ft + 2] == s[ft + 3]);
            assert(spec_marker_at(s, f));
        }
    }
}

/// Any cut with the first-marker property is the flavorless length.
pub proof fn lemma_flavorless_len_unique(s: Seq<char>, r: int)
    requires
        0 <= r <= s.len(),
        forall|j: int| 0 <= j < r ==> !spec_marker_at(s, j),
        r == s.len() || spec_marker_at(s, r),
    ensures
        r == spec_flavorless_len(s),
{
    lemma_flavorless_len_props(s);
    let f = spec_flavorless_len(s);
    if r < f {
        assert(spec_marker_at(s, r));
        assert(!spec_marker_at(s, r));
    }
    if f < r {
        assert(spec_marker_at(s, f));
        assert(!spec_marker_at(s, f));
    }
}

/// Where the first flavor marker of `s` starts, or its character count if
/// it carries none.
fn flavorless_cut(s: &str) -> (r: usize)
    ensures
        r == spec_flavorless_len(s@),
{
    let n = s.unicode_len();
    if n < 3 {
        proof {
            lemma_flavorless_len_unique(s@, n as int);
        }
        return n;
    }
    let mut i: usize = 0;
    while i <= n - 3
        invariant
            3 <= n,
            n == s@.len(),
            i <= n - 2,
            forall|j: int| 0 <= j < i ==> !spec_marker_at(s@, j),
        decreases n - i,
    {
        let c0 = s.get_char(i);
        let c1 = s.get_char(i + 1);
        let c2 = s.get_char(i + 2);
        if c0 == '_' && c1 == '_' && c2 == '_' {
            proof {
                lemma_flavorless_len_unique(s@, i as int);
            }
            return i;
        }
        proof {
            assert(!spec_marker_at(s@, i as int));
        }
        i += 1;
    }
    proof {
        lemma_flavorless_len_unique(s@, n as int);
    }
    n
}

/// Whether two names stand for the same logical type once their flavor
/// suffixes are stripped.
fn flavorless_eq(a: &str, b: &str) -> (r: bool)
    ensures
        r == (spec_flavorless(a@) == spec_flavorless(b@)),
{
    proof {
        lemma_flavorless_len_props(a@);
        lemma_flavorless_len_props(b@);
    }
    let ca = flavorless_cut(a);
    let cb = flavorless_cut(b);
    if ca != cb {
        proof {
            assert(spec_flavorless(a@).len() != spec_flavorless(b@).len());
        }
        return false;
    }
    let mut i: usize = 0;
    while i < ca
        invariant
            ca == cb,
            ca == spec_flavorless_len(a@),
            cb == spec_flavorless_len(b@),
            ca <= a@.len(),
            cb <= b@.len(),
            i <= ca,
            forall|j: int| 0 <= j < i ==> a@[j] == b@[j],
        decreases ca - i,
    {
        if s_get_char_ne(a, b, i) {
            proof {
                assert(spec_flavorless(a@)[i as int] != spec_flavorless(b@)[i as int]);
            }
            return false;
        }
        i += 1;
    }
    proof {
        assert(spec_flavorless(a@) =~= spec_flavorless(b@));
    }
    true
}

/// Whether the characters of `a` and `b` at position `i` differ.
fn s_get_char_ne(a: &str, b: &str, i: usize) -> (r: bool)
    requires
        i < a@.len(),
        i < b@.len(),
    ensures
        r == (a@[i as int] != b@[i as int]),
{
    a.get_char(i) != b.get_char(i)
}

// ---------------------------------------------------------------------------
// Type compatibility
// ---------------------------------------------------------------------------
/// What the type-compatibility check returns, stepwise, with `fuel` more
/// recursive steps allowed.
///
/// `None` marks the internal-consistency violation — a kind pairing that
/// the dispatch has no case for (a function, variable, data section,
/// declaration tag or type tag reaching a structural check) — which the
/// executable engine treats as unreachable rather than as a reportable
/// incompatibility; its `requires` excludes those inputs.  `Some` carries
/// the reported answer: `Ok(true)`/`Ok(false)`, or a resolution error or
/// `MaximumTypeDepthReached` once the fuel runs out.
pub open spec fn spec_types_compat(
    lt: Seq<BtfTypeV>,
    lid: u32,
    tt: Seq<BtfTypeV>,
    tid: u32,
    fuel: nat,
) -> Option<Result<bool, BtfError>>
    decreases fuel, 1int, 0int,
{
    if fuel == 0 {
        Some(Err(BtfError::MaximumTypeDepthReached { type_id: lid }))
    } else {
        match spec_resolve(lt, lid, lid, MAX_RESOLVE_DEPTH as nat) {
            Err(e) => Some(Err(e)),
            Ok(lr) => match spec_resolve(tt, tid, tid, MAX_RESOLVE_DEPTH as nat) {
                Err(e) => Some(Err(e)),
                Ok(tr) => {
                    let lty = lt[lr as int];
                    let tty = tt[tr as int];
                    if lty.kind() != tty.kind() {
                        Some(Ok(false))
                    } else {
                        match lty {
                            BtfTypeV::Unknown(_) => Some(Ok(true)),
                            BtfTypeV::Struct(_) => Some(Ok(true)),
                            BtfTypeV::Union(_) => Some(Ok(true)),
                            BtfTypeV::Enum(_) => Some(Ok(true)),
                            BtfTypeV::Fwd(_) => Some(Ok(true)),
                            BtfTypeV::Float(_) => Some(Ok(true)),
                            BtfTypeV::Int(li) => match tty {
                                BtfTypeV::Int(ti) => Some(
                                    Ok(li.spec_offset() == 0 && ti.spec_offset() == 0),
                                ),
                                _ => None,
                            },
                            BtfTypeV::Ptr(lp) => match tty {
                                BtfTypeV::Ptr(tp) => spec_types_compat(
                                    lt,
                                    lp.header.word,
                                    tt,
                                    tp.header.word,
                                    (fuel - 1) as nat,
                                ),
                                _ => None,
                            },
                            BtfTypeV::Array(la) => match tty {
                                BtfTypeV::Array(ta) => spec_types_compat(
                                    lt,
                                    la.array.element_type,
                                    tt,
                                    ta.array.element_type,
                                    (fuel - 1) as nat,
                                ),
                                _ => None,
                            },
                            BtfTypeV::FuncProto(lf) => match tty {
                                BtfTypeV::FuncProto(tf) => {
                                    if lf.params.len() != tf.params.len() {
                                        Some(Ok(false))
                                    } else {
                                        match spec_params_compat(
                                            lt,
                                            lf.params,
                                            tt,
                                            tf.params,
                                            fuel,
                                        ) {
                                            None => None,
                                            Some(Err(e)) => Some(Err(e)),
                                            Some(Ok(false)) => Some(Ok(false)),
                                            Some(Ok(true)) => spec_types_compat(
                                                lt,
                                                lf.header.word,
                                                tt,
                                                tf.header.word,
                                                (fuel - 1) as nat,
                                            ),
                                        }
                                    }
                                },
                                _ => None,
                            },
                            _ => None,
                        }
                    }
                },
            },
        }
    }
}

/// What checking corresponding prototype parameters returns: each pair is
/// checked by a fresh recursive type-compatibility check on the resolved
/// parameter types, stopping at the first failure.
pub open spec fn spec_params_compat(
    lt: Seq<BtfTypeV>,
    lps: Seq<BtfParam>,
    tt: Seq<BtfTypeV>,
    tps: Seq<BtfParam>,
    fuel: nat,
) -> Option<Result<bool, BtfError>>
    decreases fuel, 0int, lps.len(),
{
    if lps.len() == 0 {
        Some(Ok(true))
    } else if fuel == 0 {
        Some(Err(BtfError::MaximumTypeDepthReached { type_id: lps[0].btf_type }))
    } else {
        match spec_resolve(lt, lps[0].btf_type, lps[0].btf_type, MAX_RESOLVE_DEPTH as nat) {
            Err(e) => Some(Err(e)),
            Ok(lr) => match spec_resolve(
                tt,
                tps[0].btf_type,
                tps[0].btf_type,
                MAX_RESOLVE_DEPTH as nat,
            ) {
                Err(e) => Some(Err(e)),
                Ok(tr) => match spec_types_compat(lt, lr, tt, tr, (fuel - 1) as nat) {
                    None => None,
                    Some(Err(e)) => Some(Err(e)),
                    Some(Ok(false)) => Some(Ok(false)),
                    Some(Ok(true)) => spec_params_compat(
                        lt,
                        lps.drop_first(),
                        tt,
                        tps.drop_first(),
                        fuel,
                    ),
                },
            },
        }
    }
}

/// Decides whether two types occupy equivalent roles across independently
/// produced type graphs.
///
/// Each step resolves both ids through qualifiers and typedefs, answers
/// `false` as soon as the resolved kinds differ, and otherwise dispatches
/// on the kind: unknown, struct, union, enum, forward and float types are
/// compatible on kind alone; integers are compatible exactly when both
/// have bit offset `0` (size and signedness are deliberately ignored);
/// pointers and arrays advance to their pointee/element types; function
/// prototypes need equal parameter counts, pairwise-compatible resolved
/// parameter types, and compatible return types.  The recursion is bounded:
/// once the depth bound is exhausted the check fails with
/// `MaximumTypeDepthReached` rather than answering `false`.
///
/// Returns exactly what [`spec_types_compat`] says; the `requires` excludes
/// the inputs on which the dispatch reaches a kind it has no case for — an
/// unrecoverable internal inconsistency, not a reportable incompatibility.
pub fn types_are_compatible(
    local_btf: &Btf,
    root_local_id: u32,
    target_btf: &Btf,
    root_target_id: u32,
) -> (r: Result<bool, BtfError>)
    requires
        spec_types_compat(
            local_btf@.types,
            root_local_id,
            target_btf@.types,
            root_target_id,
            MAX_RESOLVE_DEPTH as nat,
        ) is Some,
    ensures
        Some(r) == spec_types_compat(
            local_btf@.types,
            root_local_id,
            target_btf@.types,
            root_target_id,
            MAX_RESOLVE_DEPTH as nat,
        ),
{
    types_compat_rec(local_btf, root_local_id, target_btf, root_target_id, MAX_RESOLVE_DEPTH)
}

/// One fuel-counted step of [`types_are_compatible`].
fn types_compat_rec(l: &Btf, lid: u32, t: &Btf, tid: u32, fuel: u32) -> (r: Result<bool, BtfError>)
    requires
        spec_types_compat(l@.types, lid, t@.types, tid, fuel as nat) is Some,
    ensures
        Some(r) == spec_types_compat(l@.types, lid, t@.types, tid, fuel as nat),
    decreases fuel, 1int, 0int,
{
    if fuel == 0 {
        return Err(BtfError::MaximumTypeDepthReached { type_id: lid });
    }
    let lr = match l.resolve_type(lid) {
        Ok(x) => x,
        Err(e) => {
            return Err(e);
        },
    };
    let tr = match t.resolve_type(tid) {
        Ok(x) => x,
        Err(e) => {
            return Err(e);
        },
    };
    proof {
        crate::btf::lemma_resolve_ok(l@.types, lid, lid, MAX_RESOLVE_DEPTH as nat);
        crate::btf::lemma_resolve_ok(t@.types, tid, tid, MAX_RESOLVE_DEPTH as nat);
    }
    let lty = match l.type_by_id(lr) {
        Ok(x) => x,
        Err(_) => {
            return vstd::pervasive::unreached();
        },
    };
    let tty = match t.type_by_id(tr) {
        Ok(x) => x,
        Err(_) => {
            return vstd::pervasive::unreached();
        },
    };
    if lty.kind() != tty.kind() {
        return Ok(false);
    }
    match lty {
        BtfType::Unknown(_) => Ok(true),
        BtfType::Struct(_) => Ok(true),
        BtfType::Union(_) => Ok(true),
        BtfType::Enum(_) => Ok(true),
        BtfType::Fwd(_) => Ok(true),
        BtfType::Float(_) => Ok(true),
        BtfType::Int(li) => match tty {
            BtfType::Int(ti) => Ok(li.offset() == 0 && ti.offset() == 0),
            _ => vstd::pervasive::unreached(),
        },
        BtfType::Ptr(lp) => match tty {
            BtfType::Ptr(tp) => types_compat_rec(l, lp.header.word, t, tp.header.word, fuel - 1),
            _ => vstd::pervasive::unreached(),
        },
        BtfType::Array(la) => match tty {
            BtfType::Array(ta) => types_compat_rec(
                l,
                la.array.element_type,
                t,
                ta.array.element_type,
                fuel - 1,
            ),
            _ => vstd::pervasive::unreached(),
        },
        BtfType::FuncProto(lf) => match tty {
            BtfType::FuncProto(tf) => {
                if lf.params.len() != tf.params.len() {
                    return Ok(false);
                }
                proof {
                    assert(lf.params@.skip(0) =~= lf.params@);
                    assert(tf.params@.skip(0) =~= tf.params@);
                }
                match params_compat_rec(l, &lf.params, t, &tf.params, 0, fuel) {
                    Err(e) => Err(e),
                    Ok(false) => Ok(false),
                    Ok(true) => types_compat_rec(l, lf.header.word, t, tf.header.word, fuel - 1),
                }
            },
            _ => vstd::pervasive::unreached(),
        },
        _ => vstd::pervasive::unreached(),
    }
}

/// Checks the parameter pairs from position `i` on, as
/// [`spec_params_compat`] says on the remaining suffixes.
fn params_compat_rec(
    l: &Btf,
    lps: &Vec<BtfParam>,
    t: &Btf,
    tps: &Vec<BtfParam>,
    i: usize,
    fuel: u32,
) -> (r: Result<bool, BtfError>)
    requires
        i <= lps@.len(),
        lps@.len() == tps@.len(),
        spec_params_compat(
            l@.types,
            lps@.skip(i as int),
            t@.types,
            tps@.skip(i as int),
            fuel as nat,
        ) is Some,
    ensures
        Some(r) == spec_params_compat(
            l@.types,
            lps@.skip(i as int),
            t@.types,
            tps@.skip(i as int),
            fuel as nat,
        ),
    decreases fuel, 0int, lps@.len() - i,
{
    if i == lps.len() {
        return Ok(true);
    }
    if fuel == 0 {
        return Err(BtfError::MaximumTypeDepthReached { type_id: lps[i].btf_type });
    }
    let lr = match l.resolve_type(lps[i].btf_type) {
        Ok(x) => x,
        Err(e) => {
            return Err(e);
        },
    };
    let tr = match t.resolve_type(tps[i].btf_type) {
        Ok(x) => x,
        Err(e) => {
            return Err(e);
        },
    };
    match types_compat_rec(l, lr, t, tr, fuel - 1) {
        Err(e) => Err(e),
        Ok(false) => Ok(false),
        Ok(true) => {
            proof {
                assert(lps@.skip(i as int).drop_first() =~= lps@.skip(i as int + 1));
                assert(tps@.skip(i as int).drop_first() =~= tps@.skip(i as int + 1));
            }
            params_compat_rec(l, lps, t, tps, i + 1, fuel)
        },
    }
}

// ---------------------------------------------------------------------------
// Field compatibility
// ---------------------------------------------------------------------------
/// What the field-compatibility check returns, stepwise, with `fuel` more
/// recursive steps allowed.
///
/// `None` again marks what the engine treats as unreachable: a kind
/// pairing the dispatch has no case for, or a forward/enum record whose
/// name the table cannot produce.
pub open spec fn spec_fields_compat(l: BtfView, lid: u32, t: BtfView, tid: u32, fuel: nat) -> Option<
    Result<bool, BtfError>,
>
    decreases fuel,
{
    if fuel == 0 {
        Some(Err(BtfError::MaximumTypeDepthReached { type_id: lid }))
    } else {
        match spec_resolve(l.types, lid, lid, MAX_RESOLVE_DEPTH as nat) {
            Err(e) => Some(Err(e)),
            Ok(lr) => match spec_resolve(t.types, tid, tid, MAX_RESOLVE_DEPTH as nat) {
                Err(e) => Some(Err(e)),
                Ok(tr) => {
                    let lty = l.types[lr as int];
                    let tty = t.types[tr as int];
                    if lty.is_composite() && tty.is_composite() {
                        Some(Ok(true))
                    } else if lty.kind() != tty.kind() {
                        Some(Ok(false))
                    } else {
                        match lty {
                            BtfTypeV::Fwd(_) => spec_names_compat(l, lty, t, tty),
                            BtfTypeV::Enum(_) => spec_names_compat(l, lty, t, tty),
                            BtfTypeV::Int(li) => match tty {
                                BtfTypeV::Int(ti) => Some(
                                    Ok(li.spec_offset() == 0 && ti.spec_offset() == 0),
                                ),
                                _ => None,
                            },
                            BtfTypeV::Float(_) => Some(Ok(true)),
                            BtfTypeV::Ptr(_) => Some(Ok(true)),
                            BtfTypeV::Array(la) => match tty {
                                BtfTypeV::Array(ta) => spec_fields_compat(
                                    l,
                                    la.array.element_type,
                                    t,
                                    ta.array.element_type,
                                    (fuel - 1) as nat,
                                ),
                                _ => None,
                            },
                            _ => None,
                        }
                    }
                },
            },
        }
    }
}

/// What comparing two records by name returns: equality of the flavorless
/// names, an error where a name offset is invalid, and the unreachable
/// marker where a record is anonymous.
pub open spec fn spec_names_compat(l: BtfView, lty: BtfTypeV, t: BtfView, tty: BtfTypeV) -> Option<
    Result<bool, BtfError>,
> {
    match spec_name_of_type(l, lty) {
        Err(e) => Some(Err(e)),
        Ok(None) => None,
        Ok(Some(ln)) => match spec_name_of_type(t, tty) {
            Err(e) => Some(Err(e)),
            Ok(None) => None,
            Ok(Some(tn)) => Some(Ok(spec_flavorless(ln) == spec_flavorless(tn))),
        },
    }
}

/// Decides whether a field access compiled against one type graph can be
/// relocated onto a field of another.  Looser than
/// [`types_are_compatible`]: any two composites (struct or union) are
/// field-compatible outright, since member identity is resolved by name
/// elsewhere; forward declarations and enums compare by name with flavor
/// suffixes stripped; integers need bit offset `0` on both sides; floats
/// and pointers are unconditionally compatible; arrays advance to their
/// element types.  The same depth bound applies, with the same fatal
/// `MaximumTypeDepthReached` on exhaustion.
///
/// Returns exactly what [`spec_fields_compat`] says; the `requires`
/// excludes the inputs on which the dispatch reaches a kind it has no case
/// for or an anonymous forward/enum record — an unrecoverable internal
/// inconsistency, not a reportable incompatibility.
pub fn fields_are_compatible(
    local_btf: &Btf,
    local_id: u32,
    target_btf: &Btf,
    target_id: u32,
) -> (r: Result<bool, BtfError>)
    requires
        spec_fields_compat(
            local_btf@,
            local_id,
            target_btf@,
            target_id,
            MAX_RESOLVE_DEPTH as nat,
        ) is Some,
    ensures
        Some(r) == spec_fields_compat(
            local_btf@,
            local_id,
            target_btf@,
            target_id,
            MAX_RESOLVE_DEPTH as nat,
        ),
{
    fields_compat_rec(local_btf, local_id, target_btf, target_id, MAX_RESOLVE_DEPTH)
}

/// One fuel-counted step of [`fields_are_compatible`].
fn fields_compat_rec(l: &Btf, lid: u32, t: &Btf, tid: u32, fuel: u32) -> (r: Result<bool, BtfError>)
    requires
        spec_fields_compat(l@, lid, t@, tid, fuel as nat) is Some,
    ensures
        Some(r) == spec_fields_compat(l@, lid, t@, tid, fuel as nat),
    decreases fuel,
{
    if fuel == 0 {
        return Err(BtfError::MaximumTypeDepthReached { type_id: lid });
    }
    let lr = match l.resolve_type(lid) {
        Ok(x) => x,
        Err(e) => {
            return Err(e);
        },
    };
    let tr = match t.resolve_type(tid) {
        Ok(x) => x,
        Err(e) => {
            return Err(e);
        },
    };
    proof {
        crate::btf::lemma_resolve_ok(l@.types, lid, lid, MAX_RESOLVE_DEPTH as nat);
        crate::btf::lemma_resolve_ok(t@.types, tid, tid, MAX_RESOLVE_DEPTH as nat);
    }
    let lty = match l.type_by_id(lr) {
        Ok(x) => x,
        Err(_) => {
            return vstd::pervasive::unreached();
        },
    };
    let tty = match t.type_by_id(tr) {
        Ok(x) => x,
        Err(_) => {
            return vstd::pervasive::unreached();
        },
    };
    if lty.is_composite() && tty.is_composite() {
        return Ok(true);
    }
    if lty.kind() != tty.kind() {
        return Ok(false);
    }
    match lty {
        BtfType::Fwd(_) => names_compat(l, lty, t, tty),
        BtfType::Enum(_) => names_compat(l, lty, t, tty),
        BtfType::Int(li) => match tty {
            BtfType::Int(ti) => Ok(li.offset() == 0 && ti.offset() == 0),
            _ => vstd::pervasive::unreached(),
        },
        BtfType::Float(_) => Ok(true),
        BtfType::Ptr(_) => Ok(true),
        BtfType::Array(la) => match tty {
            BtfType::Array(ta) => fields_compat_rec(
                l,
                la.array.element_type,
                t,
                ta.array.element_type,
                fuel - 1,
            ),
            _ => vstd::pervasive::unreached(),
        },
        _ => vstd::pervasive::unreached(),
    }
}

/// Compares two records by name, flavor suffixes stripped, as
/// [`spec_names_compat`] says.
fn names_compat(l: &Btf, lty: &BtfType, t: &Btf, tty: &BtfType) -> (r: Result<bool, BtfError>)
    requires
        spec_names_compat(l@, lty@, t@, tty@) is Some,
    ensures
        Some(r) == spec_names_compat(l@, lty@, t@, tty@),
{
    let ln = match l.name_of_type(lty) {
        Ok(Some(s)) => s,
        Ok(None) => {
            return vstd::pervasive::unreached();
        },
        Err(e) => {
            return Err(e);
        },
    };
    let tn = match t.name_of_type(tty) {
        Ok(Some(s)) => s,
        Ok(None) => {
            return vstd::pervasive::unreached();
        },
        Err(e) => {
            return Err(e);
        },
    };
    Ok(flavorless_eq(ln.as_str(), tn.as_str()))
}

// ---------------------------------------------------------------------------
// Laws of the compatibility engine
// ---------------------------------------------------------------------------
/// Whether every integer record of a table has bit offset `0` — the
/// well-formedness a compiler's type graph satisfies, since a nonzero
/// offset marks an artificial partial-word integer.
pub open spec fn spec_ints_have_zero_offset(types: Seq<BtfTypeV>) -> bool {
    forall|i: int|
        0 <= i < types.len() ==> ((#[trigger] types[i]) matches BtfTypeV::Int(t)
            ==> t.spec_offset() == 0)
}

/// The bit offset of an integer record, `0` for any other kind.
pub open spec fn spec_int_offset_of(v: BtfTypeV) -> u32 {
    match v {
        BtfTypeV::Int(t) => t.spec_offset(),
        _ => 0,
    }
}

/// Compatibility reflexivity: checking any id of a table against itself
/// never answers `false`, provided the table's integer records all have
/// bit offset `0`.  (With any depth bound the check may still end in
/// `MaximumTypeDepthReached`; what it can never do is deny compatibility.)
pub proof fn lemma_types_compatible_reflexive(types: Seq<BtfTypeV>, id: u32, fuel: nat)
    requires
        spec_ints_have_zero_offset(types),
    ensures
        spec_types_compat(types, id, types, id, fuel) matches Some(r) ==> (r matches Ok(b) ==> b),
    decreases fuel, 1int, 0int,
{
    if fuel > 0 {
        match spec_resolve(types, id, id, MAX_RESOLVE_DEPTH as nat) {
            Err(_) => {},
            Ok(r) => {
                crate::btf::lemma_resolve_ok(types, id, id, MAX_RESOLVE_DEPTH as nat);
                let ty = types[r as int];
                match ty {
                    BtfTypeV::Int(t) => {
                        assert(types[r as int] matches BtfTypeV::Int(t) ==> t.spec_offset() == 0);
                    },
                    BtfTypeV::Ptr(p) => {
                        lemma_types_compatible_reflexive(
                            types,
                            p.header.word,
                            (fuel - 1) as nat,
                        );
                    },
                    BtfTypeV::Array(a) => {
                        lemma_types_compatible_reflexive(
                            types,
                            a.array.element_type,
                            (fuel - 1) as nat,
                        );
                    },
                    BtfTypeV::FuncProto(f) => {
                        lemma_params_compatible_reflexive(types, f.params, fuel);
                        lemma_types_compatible_reflexive(
                            types,
                            f.header.word,
                            (fuel - 1) as nat,
                        );
                    },
                    _ => {},
                }
            },
        }
    }
}

/// Checking a parameter list of a table against itself never answers
/// `false` either, under the same integer condition.
pub proof fn lemma_params_compatible_reflexive(types: Seq<BtfTypeV>, ps: Seq<BtfParam>, fuel: nat)
    requires
        spec_ints_have_zero_offset(types),
    ensures
        spec_params_compat(types, ps, types, ps, fuel) matches Some(r) ==> (r matches Ok(b) ==> b),
    decreases fuel, 0int, ps.len(),
{
    if ps.len() > 0 && fuel > 0 {
        match spec_resolve(types, ps[0].btf_type, ps[0].btf_type, MAX_RESOLVE_DEPTH as nat) {
            Err(_) => {},
            Ok(r) => {
                lemma_types_compatible_reflexive(types, r, (fuel - 1) as nat);
                match spec_types_compat(types, r, types, r, (fuel - 1) as nat) {
                    Some(Ok(true)) => {
                        lemma_params_compatible_reflexive(types, ps.drop_first(), fuel);
                    },
                    _ => {},
                }
            },
        }
    }
}

/// The integer offset rule: two integer records — of any sizes and
/// signedness — are compatible exactly when both have bit offset `0`;
/// either one having a nonzero offset makes the pair incompatible.
pub proof fn lemma_int_offset_rule(
    lt: Seq<BtfTypeV>,
    lid: u32,
    tt: Seq<BtfTypeV>,
    tid: u32,
    fuel: nat,
)
    requires
        fuel >= 1,
        lid < lt.len(),
        tid < tt.len(),
        lt[lid as int] is Int,
        tt[tid as int] is Int,
    ensures
        spec_types_compat(lt, lid, tt, tid, fuel) == Some(
            Ok::<bool, BtfError>(
                spec_int_offset_of(lt[lid as int]) == 0 && spec_int_offset_of(tt[tid as int]) == 0,
            ),
        ),
{
}

/// The depth bound: a pointer that points to its own id — the simplest
/// cyclic chain — exhausts any fuel and fails with
/// `MaximumTypeDepthReached` instead of looping forever.
pub proof fn lemma_depth_bound_self_ptr(types: Seq<BtfTypeV>, id: u32, fuel: nat)
    requires
        id < types.len(),
        types[id as int] matches BtfTypeV::Ptr(p) && p.header.word == id,
    ensures
        spec_types_compat(types, id, types, id, fuel) == Some(
            Err::<bool, BtfError>(BtfError::MaximumTypeDepthReached { type_id: id }),
        ),
    decreases fuel,
{
    if fuel > 0 {
        lemma_depth_bound_self_ptr(types, id, (fuel - 1) as nat);
    }
}

/// A qualifier or typedef that wraps its own id can never be resolved:
/// resolution itself exhausts its depth bound and fails with
/// `MaximumTypeDepthReached` carrying the root id.
pub proof fn lemma_resolve_self_loop(types: Seq<BtfTypeV>, root: u32, id: u32, fuel: nat)
    requires
        id < types.len(),
        crate::btf::spec_is_qualifier(types[id as int]),
        types[id as int].header().word == id,
    ensures
        spec_resolve(types, root, id, fuel) == Err::<u32, BtfError>(
            BtfError::MaximumTypeDepthReached { type_id: root },
        ),
    decreases fuel,
{
    if fuel > 0 {
        lemma_resolve_self_loop(types, root, id, (fuel - 1) as nat);
    }
}

/// The depth bound through qualifiers: a compatibility check whose id
/// names a self-wrapping qualifier fails with `MaximumTypeDepthReached`
/// carrying that id.
pub proof fn lemma_depth_bound_self_qualifier(types: Seq<BtfTypeV>, id: u32, fuel: nat)
    requires
        fuel >= 1,
        id < types.len(),
        crate::btf::spec_is_qualifier(types[id as int]),
        types[id as int].header().word == id,
    ensures
        spec_types_compat(types, id, types, id, fuel) == Some(
            Err::<bool, BtfError>(BtfError::MaximumTypeDepthReached { type_id: id }),
        ),
{
    lemma_resolve_self_loop(types, id, id, MAX_RESOLVE_DEPTH as nat);
}

/// The composite rule of field compatibility: whenever both ids resolve to
/// composites — a struct to a struct, a union to a union, or one of each —
/// the fields check answers `true` outright, whatever the members look
/// like.
pub proof fn lemma_fields_compatible_composites(
    l: BtfView,
    lid: u32,
    t: BtfView,
    tid: u32,
    fuel: nat,
)
    requires
        fuel >= 1,
        spec_resolve(l.types, lid, lid, MAX_RESOLVE_DEPTH as nat) matches Ok(lr) && l.types[
            lr as int
        ].is_composite(),
        spec_resolve(t.types, tid, tid, MAX_RESOLVE_DEPTH as nat) matches Ok(tr) && t.types[
            tr as int
        ].is_composite(),
    ensures
        spec_fields_compat(l, lid, t, tid, fuel) == Some(Ok::<bool, BtfError>(true)),
{
    crate::btf::lemma_resolve_ok(l.types, lid, lid, MAX_RESOLVE_DEPTH as nat);
    crate::btf::lemma_resolve_ok(t.types, tid, tid, MAX_RESOLVE_DEPTH as nat);
}

} // verus!
