use vstd::prelude::*;

verus! {

/// The entries of a listing that translated cleanly, in enumeration order:
/// an absent entry contributes nothing, a present one contributes its
/// payload.
pub open spec fn spec_decoded_entries<T>(raw: Seq<Option<T>>) -> Seq<T>
    decreases raw.len(),
{
    if raw.len() == 0 {
        Seq::empty()
    } else {
        match raw.first() {
            Some(t) => seq![t] + spec_decoded_entries(raw.drop_first()),
            None => spec_decoded_entries(raw.drop_first()),
        }
    }
}

/// The successfully resolved entries of a listing, in enumeration order:
/// a failed entry contributes nothing, a resolved one its payload.
pub open spec fn spec_resolved_entries<T, E>(raw: Seq<Result<T, E>>) -> Seq<T>
    decreases raw.len(),
{
    if raw.len() == 0 {
        Seq::empty()
    } else {
        match raw.first() {
            Ok(t) => seq![t] + spec_resolved_entries(raw.drop_first()),
            Err(_) => spec_resolved_entries(raw.drop_first()),
        }
    }
}

/// Keeps exactly the entries of a listing that translated cleanly, in
/// order. This is the partial-results policy of every listing: one
/// malformed entry is dropped silently instead of failing the whole
/// listing, and this function itself cannot fail.
pub fn decoded_entries<T>(raw: Vec<Option<T>>) -> (r: Vec<T>)
    ensures
        r@ == spec_decoded_entries(raw@),
{
    let ghost orig = raw@;
    let mut raw = raw;
    let mut out: Vec<T> = Vec::new();
    while raw.len() > 0
        invariant
            spec_decoded_entries(orig) == out@ + spec_decoded_entries(raw@),
        decreases raw.len(),
    {
        let ghost before = raw@;
        let entry = raw.remove(0);
        proof {
            assert(raw@ =~= before.drop_first());
        }
        match entry {
            Some(t) => {
                let ghost prev_out = out@;
                out.push(t);
                proof {
                    assert(prev_out + (seq![t] + spec_decoded_entries(before.drop_first()))
                        =~= out@ + spec_decoded_entries(before.drop_first()));
                }
            },
            None => {},
        }
    }
    proof {
        assert(out@ + spec_decoded_entries(raw@) =~= out@);
    }
    out
}

/// Keeps exactly the entries of a listing that resolved, in order; the
/// same partial-results policy as `decoded_entries`, for entries whose
/// translation itself can report a failure.
pub fn resolved_entries<T, E>(raw: Vec<Result<T, E>>) -> (r: Vec<T>)
    ensures
        r@ == spec_resolved_entries(raw@),
{
    let ghost orig = raw@;
    let mut raw = raw;
    let mut out: Vec<T> = Vec::new();
    while raw.len() > 0
        invariant
            spec_resolved_entries(orig) == out@ + spec_resolved_entries(raw@),
        decreases raw.len(),
    {
        let ghost before = raw@;
        let entry = raw.remove(0);
        proof {
            assert(raw@ =~= before.drop_first());
        }
        match entry {
            Ok(t) => {
                let ghost prev_out = out@;
                out.push(t);
                proof {
                    assert(prev_out + (seq![t] + spec_resolved_entries(before.drop_first()))
                        =~= out@ + spec_resolved_entries(before.drop_first()));
                }
            },
            Err(_) => {},
        }
    }
    proof {
        assert(out@ + spec_resolved_entries(raw@) =~= out@);
    }
    out
}

/// Partial-listing tolerance, stated of single entries: a malformed entry
/// at the end of an enumeration changes nothing in what a listing returns,
/// and a clean entry appends exactly itself.
pub proof fn lemma_partial_listing_tolerance<T>(raw: Seq<Option<T>>, t: T)
    ensures
        spec_decoded_entries(raw.push(None)) == spec_decoded_entries(raw),
        spec_decoded_entries(raw.push(Some(t))) == spec_decoded_entries(raw).push(t),
    decreases raw.len(),
{
    if raw.len() == 0 {
        assert(raw.push(None).drop_first() =~= Seq::<Option<T>>::empty());
        assert(raw.push(Some(t)).drop_first() =~= Seq::<Option<T>>::empty());
        assert(raw.push(None).first() == None::<T>);
        assert(raw.push(Some(t)).first() == Some(t));
        assert(spec_decoded_entries(raw.push(Some(t))) == seq![t] + spec_decoded_entries(
            raw.push(Some(t)).drop_first(),
        ));
        assert(spec_decoded_entries(raw.push(Some(t))) =~= spec_decoded_entries(raw).push(t));
    } else {
        lemma_partial_listing_tolerance(raw.drop_first(), t);
        assert(raw.push(None).drop_first() =~= raw.drop_first().push(None));
        assert(raw.push(Some(t)).drop_first() =~= raw.drop_first().push(Some(t)));
        assert(raw.push(None).first() == raw.first());
        assert(raw.push(Some(t)).first() == raw.first());
        match raw.first() {
            Some(h) => {
                assert(spec_decoded_entries(raw.push(None)) =~= spec_decoded_entries(raw));
                assert(spec_decoded_entries(raw.push(Some(t))) =~= spec_decoded_entries(
                    raw,
                ).push(t));
            },
            None => {
                assert(spec_decoded_entries(raw.push(None)) =~= spec_decoded_entries(raw));
                assert(spec_decoded_entries(raw.push(Some(t))) =~= spec_decoded_entries(
                    raw,
                ).push(t));
            },
        }
    }
}

} // verus!
