//! Flights of one aircraft within a time interval.

use vstd::prelude::*;

use crate::encode::dec_rep;
use crate::error::OpenSkyError;
use crate::params::{Method, ParamValue, QueryParams};
use crate::structs::{Flight, Icao24};

verus! {

/// The operation's typed fields; all three are required.
#[derive(Debug, Clone)]
pub struct Endpoint {
    pub begin: u64,
    pub end: u64,
    pub icao24: Icao24,
}

impl Endpoint {
    /// A builder with every field unset.
    pub fn builder() -> (r: EndpointBuilder)
        ensures
            r.begin is None,
            r.end is None,
            r.icao24 is None,
    {
        EndpointBuilder { begin: None, end: None, icao24: None }
    }
}

/// Collects the fields of [`Endpoint`]; `build` checks that every
/// required one was set.
#[derive(Debug, Clone)]
pub struct EndpointBuilder {
    pub begin: Option<u64>,
    pub end: Option<u64>,
    pub icao24: Option<Icao24>,
}

impl EndpointBuilder {
    /// Sets the start of the time interval.
    pub fn begin(self, begin: u64) -> (r: Self)
        ensures
            r.begin == Some(begin),
            r.end == self.end,
            r.icao24 == self.icao24,
    {
        EndpointBuilder { begin: Some(begin), ..self }
    }

    /// Sets the end of the time interval.
    pub fn end(self, end: u64) -> (r: Self)
        ensures
            r.end == Some(end),
            r.begin == self.begin,
            r.icao24 == self.icao24,
    {
        EndpointBuilder { end: Some(end), ..self }
    }

    /// Sets the aircraft identifier.
    pub fn icao24(self, icao24: Icao24) -> (r: Self)
        ensures
            r.icao24 == Some(icao24),
            r.begin == self.begin,
            r.end == self.end,
    {
        EndpointBuilder { icao24: Some(icao24), ..self }
    }

    /// Finalizes the descriptor, failing with the name of the first
    /// required field that was never set.
    pub fn build(self) -> (r: Result<Endpoint, OpenSkyError>)
        ensures
            self.begin is None ==> (r matches Err(OpenSkyError::MissingField(f)) && f@
                == "begin"@),
            self.begin is Some && self.end is None ==> (r matches Err(
                OpenSkyError::MissingField(f),
            ) && f@ == "end"@),
            self.begin is Some && self.end is Some && self.icao24 is None ==> (r matches Err(
                OpenSkyError::MissingField(f),
            ) && f@ == "icao24"@),
            self.begin is Some && self.end is Some && self.icao24 is Some ==> (r matches Ok(e)
                && Some(e.begin) == self.begin && Some(e.end) == self.end && Some(e.icao24)
                == self.icao24),
    {
        let begin = match self.begin {
            Some(v) => v,
            None => {
                return Err(OpenSkyError::MissingField(String::from_str("begin")));
            },
        };
        let end = match self.end {
            Some(v) => v,
            None => {
                return Err(OpenSkyError::MissingField(String::from_str("end")));
            },
        };
        let icao24 = match self.icao24 {
            Some(v) => v,
            None => {
                return Err(OpenSkyError::MissingField(String::from_str("icao24")));
            },
        };
        Ok(Endpoint { begin, end, icao24 })
    }
}

impl crate::params::Endpoint for Endpoint {
    open spec fn method_spec(&self) -> Method {
        Method::Get
    }

    open spec fn path_spec(&self) -> Seq<char> {
        "flights/aircraft"@
    }

    open spec fn params_spec(&self) -> Seq<(Seq<char>, Seq<char>)> {
        seq![
            ("begin"@, dec_rep(self.begin as nat)),
            ("end"@, dec_rep(self.end as nat)),
            ("icao24"@, self.icao24@),
        ]
    }

    fn method(&self) -> Method {
        Method::Get
    }

    fn endpoint(&self) -> String {
        String::from_str("flights/aircraft")
    }

    fn parameters(&self) -> (r: QueryParams) {
        let mut params = QueryParams::new();
        params.push("begin", &self.begin);
        params.push("end", &self.end);
        params.push("icao24", &self.icao24);
        proof {
            assert(params@ =~= self.params_spec());
        }
        params
    }
}

/// The operation's response body: the flights found, if any.
#[derive(Debug, Clone)]
pub struct Response {
    pub flights: Vec<Flight>,
}

} // verus!
