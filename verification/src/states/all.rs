//! State vectors of all aircraft, with optional filters.

use vstd::prelude::*;

use crate::error::OpenSkyError;
use crate::params::{
    has_key, opt_composite_pairs, opt_scalar_pairs, Endpoint, Method, ParamType, QueryParams,
};
use crate::structs::{BoundingBox, Icao24, State};

verus! {

/// The operation's typed fields; every one is optional.
#[derive(Debug, Clone)]
pub struct All {
    pub time: Option<i64>,
    pub icao24: Option<Icao24>,
    pub bounding_box: Option<BoundingBox>,
    pub extended: Option<i32>,
}

impl All {
    /// A builder with every field unset.
    pub fn builder() -> (r: AllBuilder)
        ensures
            r.time is None,
            r.icao24 is None,
            r.bounding_box is None,
            r.extended is None,
    {
        AllBuilder { time: None, icao24: None, bounding_box: None, extended: None }
    }
}

/// Collects the fields of [`All`]. Every field is optional, so `build`
/// always succeeds; it returns `Result` like every builder here.
#[derive(Debug, Clone)]
pub struct AllBuilder {
    pub time: Option<i64>,
    pub icao24: Option<Icao24>,
    pub bounding_box: Option<BoundingBox>,
    pub extended: Option<i32>,
}

impl AllBuilder {
    /// Sets the time of interest.
    pub fn time(self, time: i64) -> (r: Self)
        ensures
            r.time == Some(time),
            r.icao24 == self.icao24,
            r.bounding_box == self.bounding_box,
            r.extended == self.extended,
    {
        AllBuilder { time: Some(time), ..self }
    }

    /// Sets the aircraft identifier filter.
    pub fn icao24(self, icao24: Icao24) -> (r: Self)
        ensures
            r.icao24 == Some(icao24),
            r.time == self.time,
            r.bounding_box == self.bounding_box,
            r.extended == self.extended,
    {
        AllBuilder { icao24: Some(icao24), ..self }
    }

    /// Sets the geographic filter.
    pub fn bounding_box(self, bounding_box: BoundingBox) -> (r: Self)
        ensures
            r.bounding_box == Some(bounding_box),
            r.time == self.time,
            r.icao24 == self.icao24,
            r.extended == self.extended,
    {
        AllBuilder { bounding_box: Some(bounding_box), ..self }
    }

    /// Sets the extended-category flag.
    pub fn extended(self, extended: i32) -> (r: Self)
        ensures
            r.extended == Some(extended),
            r.time == self.time,
            r.icao24 == self.icao24,
            r.bounding_box == self.bounding_box,
    {
        AllBuilder { extended: Some(extended), ..self }
    }

    /// Finalizes the descriptor; no field is required.
    pub fn build(self) -> (r: Result<All, OpenSkyError>)
        ensures
            r matches Ok(e) && e.time == self.time && e.icao24 == self.icao24 && e.bounding_box
                == self.bounding_box && e.extended == self.extended,
    {
        Ok(
            All {
                time: self.time,
                icao24: self.icao24,
                bounding_box: self.bounding_box,
                extended: self.extended,
            },
        )
    }
}

impl crate::params::Endpoint for All {
    open spec fn method_spec(&self) -> Method {
        Method::Get
    }

    open spec fn path_spec(&self) -> Seq<char> {
        "states/all"@
    }

    open spec fn params_spec(&self) -> Seq<(Seq<char>, Seq<char>)> {
        opt_scalar_pairs("time"@, self.time) + opt_scalar_pairs("icao24"@, self.icao24)
            + opt_composite_pairs(self.bounding_box) + opt_scalar_pairs(
            "extended"@,
            self.extended,
        )
    }

    fn method(&self) -> Method {
        Method::Get
    }

    fn endpoint(&self) -> String {
        String::from_str("states/all")
    }

    fn parameters(&self) -> (r: QueryParams) {
        let mut params = QueryParams::new();
        params.push_opt("time", &self.time);
        params.push_opt("icao24", &self.icao24);
        params.extend_opt(&self.bounding_box);
        params.push_opt("extended", &self.extended);
        proof {
            assert(params@ =~= self.params_spec());
        }
        params
    }
}

/// An optional field left unset contributes nothing: the produced pair
/// sequence holds no pair under that field's key.
pub proof fn lemma_unset_field_absent(e: All)
    ensures
        e.time is None ==> !has_key(e.params_spec(), "time"@),
        e.icao24 is None ==> !has_key(e.params_spec(), "icao24"@),
        e.bounding_box is None ==> !has_key(e.params_spec(), "lamin"@) && !has_key(
            e.params_spec(),
            "lomin"@,
        ) && !has_key(e.params_spec(), "lamax"@) && !has_key(e.params_spec(), "lomax"@),
        e.extended is None ==> !has_key(e.params_spec(), "extended"@),
{
    reveal_strlit("time");
    reveal_strlit("icao24");
    reveal_strlit("extended");
    reveal_strlit("lamin");
    reveal_strlit("lomin");
    reveal_strlit("lamax");
    reveal_strlit("lomax");
    let ps = e.params_spec();
    assert forall|i: int| 0 <= i < ps.len() implies ((#[trigger] ps[i]).0 == "time"@ ==> e.time
        is Some) && (ps[i].0 == "icao24"@ ==> e.icao24 is Some) && ((ps[i].0 == "lamin"@ || ps[i].0
        == "lomin"@ || ps[i].0 == "lamax"@ || ps[i].0 == "lomax"@) ==> e.bounding_box is Some) && (
    ps[i].0 == "extended"@ ==> e.extended is Some) by {
        assert("time"@.len() == 4 && "icao24"@.len() == 6 && "extended"@.len() == 8
            && "lamin"@.len() == 5 && "lomin"@.len() == 5 && "lamax"@.len() == 5 && "lomax"@.len()
            == 5);
        assert("lamin"@[1] == 'a' && "lomin"@[1] == 'o' && "lamax"@[1] == 'a' && "lomax"@[1]
            == 'o');
        assert("lamin"@[3] == 'i' && "lamax"@[3] == 'a' && "lomin"@[3] == 'i' && "lomax"@[3]
            == 'a');
    }
}

/// The operation's response body: a snapshot time and the matching
/// state vectors; the list is absent when nothing matches.
#[derive(Debug, Clone)]
pub struct AllResponse {
    pub states: Option<Vec<State>>,
    pub time: u64,
}

} // verus!
