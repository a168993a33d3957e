//! The trajectory of one aircraft.

use vstd::prelude::*;

use crate::encode::dec_rep;
use crate::error::OpenSkyError;
use crate::params::{has_key, opt_scalar_pairs, Endpoint as EndpointDescriptor, Method, ParamValue,
    QueryParams};
use crate::structs::{Icao24, Track};

verus! {

/// The operation's typed fields: the aircraft is required, the time of
/// interest is optional.
#[derive(Debug, Clone)]
pub struct Endpoint {
    pub icao24: Icao24,
    pub time: Option<u64>,
}

impl Endpoint {
    /// A builder with every field unset.
    pub fn builder() -> (r: EndpointBuilder)
        ensures
            r.icao24 is None,
            r.time is None,
    {
        EndpointBuilder { icao24: None, time: None }
    }
}

/// Collects the fields of [`Endpoint`]; `build` checks that the
/// required aircraft identifier was set.
#[derive(Debug, Clone)]
pub struct EndpointBuilder {
    pub icao24: Option<Icao24>,
    pub time: Option<u64>,
}

impl EndpointBuilder {
    /// Sets the aircraft identifier.
    pub fn icao24(self, icao24: Icao24) -> (r: Self)
        ensures
            r.icao24 == Some(icao24),
            r.time == self.time,
    {
        EndpointBuilder { icao24: Some(icao24), ..self }
    }

    /// Sets the time of interest.
    pub fn time(self, time: u64) -> (r: Self)
        ensures
            r.time == Some(time),
            r.icao24 == self.icao24,
    {
        EndpointBuilder { time: Some(time), ..self }
    }

    /// Finalizes the descriptor, failing with the name of the required
    /// field if it was never set.
    pub fn build(self) -> (r: Result<Endpoint, OpenSkyError>)
        ensures
            self.icao24 is None ==> (r matches Err(OpenSkyError::MissingField(f)) && f@
                == "icao24"@),
            self.icao24 is Some ==> (r matches Ok(e) && Some(e.icao24) == self.icao24 && e.time
                == self.time),
    {
        let icao24 = match self.icao24 {
            Some(v) => v,
            None => {
                return Err(OpenSkyError::MissingField(String::from_str("icao24")));
            },
        };
        Ok(Endpoint { icao24, time: self.time })
    }
}

impl crate::params::Endpoint for Endpoint {
    open spec fn method_spec(&self) -> Method {
        Method::Get
    }

    open spec fn path_spec(&self) -> Seq<char> {
        "tracks"@
    }

    open spec fn params_spec(&self) -> Seq<(Seq<char>, Seq<char>)> {
        seq![("icao24"@, self.icao24@)] + opt_scalar_pairs("time"@, self.time)
    }

    fn method(&self) -> Method {
        Method::Get
    }

    fn endpoint(&self) -> String {
        String::from_str("tracks")
    }

    fn parameters(&self) -> (r: QueryParams) {
        let mut params = QueryParams::new();
        params.push("icao24", &self.icao24);
        params.push_opt("time", &self.time);
        proof {
            assert(params@ =~= self.params_spec());
        }
        params
    }
}

/// A request without a time of interest carries no `time` pair: only
/// the aircraft identifier appears in the query.
pub proof fn lemma_unset_time_absent(e: Endpoint)
    ensures
        e.time is None ==> !has_key(e.params_spec(), "time"@),
{
    reveal_strlit("time");
    reveal_strlit("icao24");
    let ps = e.params_spec();
    assert forall|i: int| 0 <= i < ps.len() implies ((#[trigger] ps[i]).0 == "time"@ ==> e.time
        is Some) by {
        assert("time"@.len() == 4 && "icao24"@.len() == 6);
    }
}

/// The operation's response body: the trajectory found.
#[derive(Debug, Clone)]
pub struct Response {
    pub track: Track,
}

} // verus!
