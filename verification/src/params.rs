//! Query-parameter encoding: scalar and composite encoders, the ordered
//! parameter collection, and its serialization into a query string.

use vstd::prelude::*;

use crate::encode::{dec_rep, int_rep, i32_to_dec, i64_to_dec, u64_to_dec};

verus! {

/// The HTTP verb of a request. Every operation of this API reads data,
/// so only `Get` exists.
#[derive(Clone, Copy, Debug, PartialEq, Eq, Structural)]
pub enum Method {
    Get,
}

/// A scalar encoder: one typed value rendered as one query-string value.
/// Encoders are deterministic and perform no percent-escaping; escaping
/// belongs to the transport's query serializer.
pub trait ParamValue {
    /// The rendering that `as_value` returns.
    spec fn value_spec(&self) -> Seq<char>;

    /// Renders the value.
    fn as_value(&self) -> (r: String)
        ensures
            r@ == self.value_spec(),
    ;
}

impl ParamValue for u64 {
    open spec fn value_spec(&self) -> Seq<char> {
        dec_rep(*self as nat)
    }

    fn as_value(&self) -> (r: String) {
        u64_to_dec(*self)
    }
}

impl ParamValue for i64 {
    open spec fn value_spec(&self) -> Seq<char> {
        int_rep(*self as int)
    }

    fn as_value(&self) -> (r: String) {
        i64_to_dec(*self)
    }
}

impl ParamValue for i32 {
    open spec fn value_spec(&self) -> Seq<char> {
        int_rep(*self as int)
    }

    fn as_value(&self) -> (r: String) {
        i32_to_dec(*self)
    }
}

impl ParamValue for String {
    open spec fn value_spec(&self) -> Seq<char> {
        self@
    }

    fn as_value(&self) -> (r: String) {
        self.clone()
    }
}

/// A composite encoder: one structured value expanded into an ordered
/// list of named pairs.
pub trait ParamType {
    /// The pair sequence that `as_pairs` returns.
    spec fn pairs_spec(&self) -> Seq<(Seq<char>, Seq<char>)>;

    /// Expands the value into its pairs.
    fn as_pairs(&self) -> (r: Vec<(String, String)>)
        ensures
            r@.map_values(|p: (String, String)| (p.0@, p.1@)) == self.pairs_spec(),
    ;
}

/// The pairs contributed by an optional scalar field: one pair when the
/// value is present, none when it is absent.
pub open spec fn opt_scalar_pairs<V: ParamValue>(name: Seq<char>, v: Option<V>) -> Seq<
    (Seq<char>, Seq<char>),
> {
    match v {
        Some(x) => seq![(name, x.value_spec())],
        None => seq![],
    }
}

/// The pairs contributed by an optional composite field.
pub open spec fn opt_composite_pairs<V: ParamType>(v: Option<V>) -> Seq<(Seq<char>, Seq<char>)> {
    match v {
        Some(x) => x.pairs_spec(),
        None => seq![],
    }
}

/// The pairs contributed by a multi-valued field: one pair per element,
/// all under the same name, in element order.
pub open spec fn many_pairs<V: ParamValue>(name: Seq<char>, vs: Seq<V>) -> Seq<
    (Seq<char>, Seq<char>),
> {
    vs.map_values(|x: V| (name, x.value_spec()))
}

/// The pairs contributed by an optional multi-valued field.
pub open spec fn opt_many_pairs<V: ParamValue>(name: Seq<char>, vs: Option<Vec<V>>) -> Seq<
    (Seq<char>, Seq<char>),
> {
    match vs {
        Some(x) => many_pairs(name, x@),
        None => seq![],
    }
}

/// An ordered sequence of (key, value) pairs destined for a query string.
/// Insertion order is preserved; repeated keys are legal and expected for
/// multi-valued fields.
pub struct QueryParams {
    pairs: Vec<(String, String)>,
}

impl View for QueryParams {
    type V = Seq<(Seq<char>, Seq<char>)>;

    closed spec fn view(&self) -> Seq<(Seq<char>, Seq<char>)> {
        self.pairs@.map_values(|p: (String, String)| (p.0@, p.1@))
    }
}

impl QueryParams {
    /// An empty parameter collection.
    pub fn new() -> (r: Self)
        ensures
            r@ == Seq::<(Seq<char>, Seq<char>)>::empty(),
    {
        let r = QueryParams { pairs: Vec::new() };
        proof {
            assert(r@ =~= Seq::<(Seq<char>, Seq<char>)>::empty());
        }
        r
    }

    /// Appends one required pair; the value is rendered by its scalar
    /// encoder.
    pub fn push<V: ParamValue>(&mut self, name: &str, value: &V)
        ensures
            final(self)@ == old(self)@ + seq![(name@, value.value_spec())],
    {
        let v = value.as_value();
        self.pairs.push((String::from_str(name), v));
        proof {
            assert(self@ =~= old(self)@ + seq![(name@, value.value_spec())]);
        }
    }

    /// Appends one pair when the optional value is present; an absent
    /// value contributes nothing.
    pub fn push_opt<V: ParamValue>(&mut self, name: &str, value: &Option<V>)
        ensures
            final(self)@ == old(self)@ + opt_scalar_pairs(name@, *value),
    {
        match value {
            Some(v) => self.push(name, v),
            None => {
                proof {
                    assert(self@ =~= old(self)@ + opt_scalar_pairs(name@, *value));
                }
            },
        }
    }

    /// Appends every pair produced by a composite encoder.
    pub fn extend<V: ParamType>(&mut self, value: &V)
        ensures
            final(self)@ == old(self)@ + value.pairs_spec(),
    {
        let more = value.as_pairs();
        let mut i: usize = 0;
        while i < more.len()
            invariant
                i <= more.len(),
                more@.map_values(|p: (String, String)| (p.0@, p.1@)) == value.pairs_spec(),
                self.pairs@ == old(self).pairs@ + more@.take(i as int),
            decreases more.len() - i,
        {
            let (k, v) = (more[i].0.clone(), more[i].1.clone());
            self.pairs.push((k, v));
            proof {
                assert(self.pairs@ =~= old(self).pairs@ + more@.take(i as int + 1));
            }
            i += 1;
        }
        proof {
            assert(self.pairs@ =~= old(self).pairs@ + more@);
            let f = |p: (String, String)| (p.0@, p.1@);
            assert forall|j: int| 0 <= j < self@.len() implies self@[j] == (old(self)@
                + value.pairs_spec())[j] by {
                assert(self@[j] == f(self.pairs@[j]));
                if j < old(self).pairs@.len() {
                    assert(old(self)@[j] == f(old(self).pairs@[j]));
                } else {
                    let m = j - old(self).pairs@.len();
                    assert(more@.map_values(f)[m] == f(more@[m]));
                }
            }
            assert(self@ =~= old(self)@ + value.pairs_spec());
        }
    }

    /// Appends the pairs of an optional composite value, if present.
    pub fn extend_opt<V: ParamType>(&mut self, value: &Option<V>)
        ensures
            final(self)@ == old(self)@ + opt_composite_pairs(*value),
    {
        match value {
            Some(v) => self.extend(v),
            None => {
                proof {
                    assert(self@ =~= old(self)@ + opt_composite_pairs(*value));
                }
            },
        }
    }

    /// Appends one pair per element of a multi-valued field, preserving
    /// element order; all pairs share the same name.
    pub fn extend_many<V: ParamValue>(&mut self, name: &str, values: &Vec<V>)
        ensures
            final(self)@ == old(self)@ + many_pairs(name@, values@),
    {
        let mut i: usize = 0;
        while i < values.len()
            invariant
                i <= values.len(),
                self@ == old(self)@ + many_pairs(name@, values@.take(i as int)),
            decreases values.len() - i,
        {
            self.push(name, &values[i]);
            proof {
                assert(many_pairs(name@, values@.take(i as int + 1)) =~= many_pairs(
                    name@,
                    values@.take(i as int),
                ) + seq![(name@, values@[i as int].value_spec())]);
            }
            i += 1;
        }
        proof {
            assert(values@.take(values@.len() as int) =~= values@);
        }
    }

    /// Appends the pairs of an optional multi-valued field, if present.
    pub fn extend_many_opt<V: ParamValue>(&mut self, name: &str, values: &Option<Vec<V>>)
        ensures
            final(self)@ == old(self)@ + opt_many_pairs(name@, *values),
    {
        match values {
            Some(vs) => self.extend_many(name, vs),
            None => {
                proof {
                    assert(self@ =~= old(self)@ + opt_many_pairs(name@, *values));
                }
            },
        }
    }

    /// Whether the collection holds no pair.
    pub fn is_empty(&self) -> (r: bool)
        ensures
            r == (self@.len() == 0),
    {
        self.pairs.len() == 0
    }

    /// Serializes the collection into a query string.
    pub fn to_query_string(&self) -> (r: String)
        ensures
            r@ == query_string_of(self@),
    {
        let mut out = String::new();
        let mut i: usize = 0;
        while i < self.pairs.len()
            invariant
                i <= self.pairs.len(),
                out@ == query_string_of(self@.take(i as int)),
            decreases self.pairs.len() - i,
        {
            if i > 0 {
                out.append("&");
                proof {
                    reveal_strlit("&");
                    assert("&"@ =~= seq!['&']);
                }
            }
            out.append(self.pairs[i].0.as_str());
            out.append("=");
            proof {
                reveal_strlit("=");
                assert("="@ =~= seq!['=']);
            }
            out.append(self.pairs[i].1.as_str());
            proof {
                let taken = self@.take(i as int + 1);
                assert(taken.drop_last() =~= self@.take(i as int));
                assert(taken.last() == self@[i as int]);
                assert(out@ =~= query_string_of(self@.take(i as int + 1)));
            }
            i += 1;
        }
        proof {
            assert(self@.take(self@.len() as int) =~= self@);
        }
        out
    }
}

/// Whether some pair of the sequence carries the given key.
pub open spec fn has_key(ps: Seq<(Seq<char>, Seq<char>)>, key: Seq<char>) -> bool {
    exists|i: int| 0 <= i < ps.len() && (#[trigger] ps[i]).0 == key
}

/// One pair rendered as `key=value`.
pub open spec fn pair_string(p: (Seq<char>, Seq<char>)) -> Seq<char> {
    p.0 + seq!['='] + p.1
}

/// A pair sequence rendered as `k1=v1&k2=v2&...`; empty for no pairs.
pub open spec fn query_string_of(ps: Seq<(Seq<char>, Seq<char>)>) -> Seq<char>
    decreases ps.len(),
{
    if ps.len() == 0 {
        Seq::empty()
    } else if ps.len() == 1 {
        pair_string(ps.last())
    } else {
        query_string_of(ps.drop_last()) + seq!['&'] + pair_string(ps.last())
    }
}

/// An endpoint descriptor: one API operation's verb, relative path, and
/// parameter mapping.
pub trait Endpoint {
    /// The verb `method` returns.
    spec fn method_spec(&self) -> Method;

    /// The relative path `endpoint` returns.
    spec fn path_spec(&self) -> Seq<char>;

    /// The pair sequence `parameters` produces.
    spec fn params_spec(&self) -> Seq<(Seq<char>, Seq<char>)>;

    /// The HTTP verb of the operation.
    fn method(&self) -> (r: Method)
        ensures
            r == self.method_spec(),
    ;

    /// The operation's path, relative to the API base URL.
    fn endpoint(&self) -> (r: String)
        ensures
            r@ == self.path_spec(),
    ;

    /// The operation's query parameters, in declared field order.
    fn parameters(&self) -> (r: QueryParams)
        ensures
            r@ == self.params_spec(),
    ;
}

} // verus!
