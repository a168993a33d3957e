//! All flights within a time interval.

use vstd::prelude::*;

use crate::encode::dec_rep;
use crate::error::OpenSkyError;
use crate::params::{Method, ParamValue, QueryParams};
use crate::structs::Flight;

verus! {

/// The operation's typed fields; both are required.
#[derive(Debug, Clone)]
pub struct Endpoint {
    pub begin: u64,
    pub end: u64,
}

impl Endpoint {
    /// A builder with every field unset.
    pub fn builder() -> (r: EndpointBuilder)
        ensures
            r.begin is None,
            r.end is None,
    {
        EndpointBuilder { begin: None, end: None }
    }
}

/// Collects the fields of [`Endpoint`]; `build` checks that every
/// required one was set.
#[derive(Debug, Clone)]
pub struct EndpointBuilder {
    pub begin: Option<u64>,
    pub end: Option<u64>,
}

impl EndpointBuilder {
    /// Sets the start of the time interval.
    pub fn begin(self, begin: u64) -> (r: Self)
        ensures
            r.begin == Some(begin),
            r.end == self.end,
    {
        EndpointBuilder { begin: Some(begin), ..self }
    }

    /// Sets the end of the time interval.
    pub fn end(self, end: u64) -> (r: Self)
        ensures
            r.end == Some(end),
            r.begin == self.begin,
    {
        EndpointBuilder { end: Some(end), ..self }
    }

    /// Finalizes the descriptor, failing with the name of the first
    /// required field that was never set.
    pub fn build(self) -> (r: Result<Endpoint, OpenSkyError>)
        ensures
            self.begin is None ==> (r matches Err(OpenSkyError::MissingField(f)) && f@
                == "begin"@),
            self.begin is Some && self.end is None ==> (r matches Err(
                OpenSkyError::MissingField(f),
            ) && f@ == "end"@),
            self.begin is Some && self.end is Some ==> (r matches Ok(e) && Some(e.begin)
                == self.begin && Some(e.end) == self.end),
    {
        let begin = match self.begin {
            Some(v) => v,
            None => {
                return Err(OpenSkyError::MissingField(String::from_str("begin")));
            },
        };
        let end = match self.end {
            Some(v) => v,
            None => {
                return Err(OpenSkyError::MissingField(String::from_str("end")));
            },
        };
        Ok(Endpoint { begin, end })
    }
}

impl crate::params::Endpoint for Endpoint {
    open spec fn method_spec(&self) -> Method {
        Method::Get
    }

    open spec fn path_spec(&self) -> Seq<char> {
        "flights/all"@
    }

    open spec fn params_spec(&self) -> Seq<(Seq<char>, Seq<char>)> {
        seq![("begin"@, dec_rep(self.begin as nat)), ("end"@, dec_rep(self.end as nat))]
    }

    fn method(&self) -> Method {
        Method::Get
    }

    fn endpoint(&self) -> String {
        String::from_str("flights/all")
    }

    fn parameters(&self) -> (r: QueryParams) {
        let mut params = QueryParams::new();
        params.push("begin", &self.begin);
        params.push("end", &self.end);
        proof {
            assert(params@ =~= self.params_spec());
        }
        params
    }
}

/// The operation's response body: the flights found, if any.
#[derive(Debug, Clone)]
pub struct Response {
    pub flights: Vec<Flight>,
}

} // verus!
