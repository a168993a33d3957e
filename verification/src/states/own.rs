//! State vectors of the caller's own sensors, with optional filters.

use vstd::prelude::*;

use crate::encode::dec_rep;
use crate::error::OpenSkyError;
use crate::params::{
    has_key, many_pairs, opt_many_pairs, opt_scalar_pairs, Endpoint as EndpointDescriptor,
    Method, ParamValue, QueryParams,
};
use crate::structs::{Icao24, State};

verus! {

/// The operation's typed fields; every one is optional, and `serials`
/// is multi-valued.
#[derive(Debug, Clone)]
pub struct Endpoint {
    pub time: Option<i64>,
    pub icao24: Option<Icao24>,
    pub serials: Option<Vec<u64>>,
}

impl Endpoint {
    /// A builder with every field unset.
    pub fn builder() -> (r: EndpointBuilder)
        ensures
            r.time is None,
            r.icao24 is None,
            r.serials is None,
    {
        EndpointBuilder { time: None, icao24: None, serials: None }
    }
}

/// Collects the fields of [`Endpoint`]. Every field is optional, so
/// `build` always succeeds; it returns `Result` like every builder here.
#[derive(Debug, Clone)]
pub struct EndpointBuilder {
    pub time: Option<i64>,
    pub icao24: Option<Icao24>,
    pub serials: Option<Vec<u64>>,
}

impl EndpointBuilder {
    /// Sets the time of interest.
    pub fn time(self, time: i64) -> (r: Self)
        ensures
            r.time == Some(time),
            r.icao24 == self.icao24,
            r.serials == self.serials,
    {
        EndpointBuilder { time: Some(time), ..self }
    }

    /// Sets the aircraft identifier filter.
    pub fn icao24(self, icao24: Icao24) -> (r: Self)
        ensures
            r.icao24 == Some(icao24),
            r.time == self.time,
            r.serials == self.serials,
    {
        EndpointBuilder { icao24: Some(icao24), ..self }
    }

    /// Sets the sensor serial numbers to filter by.
    pub fn serials(self, serials: Vec<u64>) -> (r: Self)
        ensures
            r.serials == Some(serials),
            r.time == self.time,
            r.icao24 == self.icao24,
    {
        EndpointBuilder { serials: Some(serials), ..self }
    }

    /// Finalizes the descriptor; no field is required.
    pub fn build(self) -> (r: Result<Endpoint, OpenSkyError>)
        ensures
            r matches Ok(e) && e.time == self.time && e.icao24 == self.icao24 && e.serials
                == self.serials,
    {
        Ok(Endpoint { time: self.time, icao24: self.icao24, serials: self.serials })
    }
}

impl crate::params::Endpoint for Endpoint {
    open spec fn method_spec(&self) -> Method {
        Method::Get
    }

    open spec fn path_spec(&self) -> Seq<char> {
        "states/own"@
    }

    open spec fn params_spec(&self) -> Seq<(Seq<char>, Seq<char>)> {
        opt_scalar_pairs("time"@, self.time) + opt_scalar_pairs("icao24"@, self.icao24)
            + opt_many_pairs("serials"@, self.serials)
    }

    fn method(&self) -> Method {
        Method::Get
    }

    fn endpoint(&self) -> String {
        String::from_str("states/own")
    }

    fn parameters(&self) -> (r: QueryParams) {
        let mut params = QueryParams::new();
        params.push_opt("time", &self.time);
        params.push_opt("icao24", &self.icao24);
        params.extend_many_opt("serials", &self.serials);
        proof {
            assert(params@ =~= self.params_spec());
        }
        params
    }
}

/// An optional field left unset contributes nothing: the produced pair
/// sequence holds no pair under that field's key.
pub proof fn lemma_unset_field_absent(e: Endpoint)
    ensures
        e.time is None ==> !has_key(e.params_spec(), "time"@),
        e.icao24 is None ==> !has_key(e.params_spec(), "icao24"@),
        e.serials is None ==> !has_key(e.params_spec(), "serials"@),
{
    reveal_strlit("time");
    reveal_strlit("icao24");
    reveal_strlit("serials");
    let ps = e.params_spec();
    assert forall|i: int| 0 <= i < ps.len() implies ((#[trigger] ps[i]).0 == "time"@ ==> e.time
        is Some) && (ps[i].0 == "icao24"@ ==> e.icao24 is Some) && (ps[i].0 == "serials"@
        ==> e.serials is Some) by {
        assert("time"@.len() == 4 && "icao24"@.len() == 6 && "serials"@.len() == 7);
    }
}

/// A multi-valued field with `n` elements contributes exactly `n` pairs
/// under its key, carrying the elements' renderings in element order.
pub proof fn lemma_serials_in_order(e: Endpoint, serials: Vec<u64>)
    requires
        e.serials == Some(serials),
    ensures
        e.params_spec().filter(|p: (Seq<char>, Seq<char>)| p.0 == "serials"@) == many_pairs(
            "serials"@,
            serials@,
        ),
{
    broadcast use vstd::seq_lib::group_filter_ensures;

    reveal_strlit("time");
    reveal_strlit("icao24");
    reveal_strlit("serials");
    let key_is_serials = |p: (Seq<char>, Seq<char>)| p.0 == "serials"@;
    let front = opt_scalar_pairs("time"@, e.time) + opt_scalar_pairs("icao24"@, e.icao24);
    let tail = many_pairs("serials"@, serials@);
    Seq::filter_distributes_over_add(front, tail, key_is_serials);
    assert("time"@.len() == 4 && "icao24"@.len() == 6 && "serials"@.len() == 7);
    assert(front.filter(key_is_serials) =~= Seq::<(Seq<char>, Seq<char>)>::empty()) by {
        Seq::filter_distributes_over_add(
            opt_scalar_pairs("time"@, e.time),
            opt_scalar_pairs("icao24"@, e.icao24),
            key_is_serials,
        );
        lemma_singleton_filter_empty(opt_scalar_pairs("time"@, e.time), key_is_serials);
        lemma_singleton_filter_empty(opt_scalar_pairs("icao24"@, e.icao24), key_is_serials);
    }
    assert(tail.filter(key_is_serials) =~= tail) by {
        lemma_filter_keeps_all(tail, key_is_serials);
    }
    assert(e.params_spec().filter(key_is_serials) =~= tail);
}

/// A sequence of at most one pair, whose pair fails the predicate,
/// filters to nothing.
proof fn lemma_singleton_filter_empty(
    ps: Seq<(Seq<char>, Seq<char>)>,
    pred: spec_fn((Seq<char>, Seq<char>)) -> bool,
)
    requires
        ps.len() <= 1,
        forall|i: int| 0 <= i < ps.len() ==> !pred(#[trigger] ps[i]),
    ensures
        ps.filter(pred) == Seq::<(Seq<char>, Seq<char>)>::empty(),
{
    reveal(Seq::filter);
    if ps.len() == 1 {
        assert(ps.drop_last() =~= Seq::<(Seq<char>, Seq<char>)>::empty());
        assert(ps.drop_last().filter(pred) =~= Seq::<(Seq<char>, Seq<char>)>::empty());
    }
}

/// A sequence whose every pair passes the predicate filters to itself.
proof fn lemma_filter_keeps_all(
    ps: Seq<(Seq<char>, Seq<char>)>,
    pred: spec_fn((Seq<char>, Seq<char>)) -> bool,
)
    requires
        forall|i: int| 0 <= i < ps.len() ==> pred(#[trigger] ps[i]),
    ensures
        ps.filter(pred) == ps,
    decreases ps.len(),
{
    reveal(Seq::filter);
    if ps.len() > 0 {
        lemma_filter_keeps_all(ps.drop_last(), pred);
        assert(ps.filter(pred) =~= ps);
    }
}

/// The operation's response body: a snapshot time and the matching
/// state vectors.
#[derive(Debug, Clone)]
pub struct Response {
    pub time: u64,
    pub states: Vec<State>,
}

} // verus!
