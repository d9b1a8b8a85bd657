use vstd::prelude::*;

use crate::protocol::uc_str::{has_no_nul, uc_chars, UCStr};
use crate::protocol::uc_string::{lemma_uc_string_text, uc_string_units, UCString};

verus! {

/// One connection parameter (`RFC_CONNECTION_PARAMETER`): name and value as
/// nul-terminated SAP unicode strings.
#[derive(Debug, Clone)]
pub struct RfcConnectionParameter {
    name: UCString,
    value: UCString,
}

impl RfcConnectionParameter {
    /// The code units of the name.
    pub closed spec fn spec_name(&self) -> Seq<u16> {
        self.name@
    }

    /// The code units of the value.
    pub closed spec fn spec_value(&self) -> Seq<u16> {
        self.value@
    }

    /// The name of the parameter.
    pub fn name(&self) -> (r: &UCString)
        ensures
            r@ == self.spec_name(),
    {
        &self.name
    }

    /// The value of the parameter.
    pub fn value(&self) -> (r: &UCString)
        ensures
            r@ == self.spec_value(),
    {
        &self.value
    }
}

/// The parameters of an RFC connection: name-value pairs in the order in which they were
/// added.
#[derive(Debug, Clone)]
pub struct ConnectionParameters(Vec<RfcConnectionParameter>);

impl View for ConnectionParameters {
    type V = Seq<(Seq<u16>, Seq<u16>)>;

    closed spec fn view(&self) -> Seq<(Seq<u16>, Seq<u16>)> {
        self.0@.map_values(|p: RfcConnectionParameter| (p.spec_name(), p.spec_value()))
    }
}

impl Default for ConnectionParameters {
    fn default() -> (r: Self)
        ensures
            r@ == Seq::<(Seq<u16>, Seq<u16>)>::empty(),
    {
        let r = ConnectionParameters(Vec::new());
        assert(r@ =~= Seq::<(Seq<u16>, Seq<u16>)>::empty());
        r
    }
}

impl ConnectionParameters {
    /// Adds a parameter behind the existing ones; name and value are stored as
    /// nul-terminated SAP unicode strings.
    pub fn push(&mut self, name: &str, value: &str)
        ensures
            final(self)@ == old(self)@.push((uc_string_units(name@), uc_string_units(value@))),
            has_no_nul(name@) ==> uc_chars(final(self)@.last().0) == name@,
            has_no_nul(value@) ==> uc_chars(final(self)@.last().1) == value@,
    {
        proof {
            if has_no_nul(name@) {
                lemma_uc_string_text(name@);
            }
            if has_no_nul(value@) {
                lemma_uc_string_text(value@);
            }
        }
        let param = RfcConnectionParameter {
            name: UCString::from_str(name),
            value: UCString::from_str(value),
        };
        self.0.push(param);
        assert(self@ =~= old(self)@.push((uc_string_units(name@), uc_string_units(value@))));
    }

    /// An empty list of parameters with room for `capacity` parameters.
    pub fn with_capacity(capacity: usize) -> (r: Self)
        ensures
            r@ == Seq::<(Seq<u16>, Seq<u16>)>::empty(),
    {
        let r = ConnectionParameters(Vec::with_capacity(capacity));
        assert(r@ =~= Seq::<(Seq<u16>, Seq<u16>)>::empty());
        r
    }

    /// The parameters, in order.
    pub fn as_slice(&self) -> (r: &[RfcConnectionParameter])
        ensures
            r@.len() == self@.len(),
            forall|i: int|
                0 <= i < r@.len() ==> (#[trigger] r@[i].spec_name(), r@[i].spec_value())
                    == self@[i],
    {
        self.0.as_slice()
    }

    /// The number of parameters.
    pub fn len(&self) -> (r: usize)
        ensures
            r == self@.len(),
    {
        self.0.len()
    }

    /// Name and value of the parameter at the given position, read up to their first nul,
    /// or `None` where the position is out of range.
    pub fn get(&self, index: usize) -> (r: Option<(String, String)>)
        ensures
            index < self@.len() ==> (r matches Some((n, v)) && n@ == uc_chars(self@[index as int].0)
                && v@ == uc_chars(self@[index as int].1)),
            index >= self@.len() ==> r is None,
    {
        if index >= self.0.len() {
            None
        } else {
            let param = &self.0[index];
            let name = UCStr::slice_to_string_lossy(param.name().as_slice());
            let value = UCStr::slice_to_string_lossy(param.value().as_slice());
            Some((name, value))
        }
    }

    /// An iterator over names and values of the parameters, in order.
    pub fn iter(&self) -> (r: ConnectionParameterIterator<'_>)
        ensures
            r.spec_params() == self,
            r.spec_index() == 0,
    {
        ConnectionParameterIterator { index: 0, params: self }
    }

    /// The parameters with the given names and values, in order.
    pub fn from_pairs(params: &[(&str, &str)]) -> (r: Self)
        ensures
            r@.len() == params@.len(),
            forall|i: int|
                0 <= i < params@.len() ==> #[trigger] r@[i] == (
                    uc_string_units(params@[i].0@),
                    uc_string_units(params@[i].1@),
                ),
    {
        let mut result = Self::with_capacity(params.len());
        let mut i: usize = 0;
        while i < params.len()
            invariant
                i <= params@.len(),
                result@.len() == i,
                forall|j: int|
                    0 <= j < i ==> #[trigger] result@[j] == (
                        uc_string_units(params@[j].0@),
                        uc_string_units(params@[j].1@),
                    ),
            decreases params@.len() - i,
        {
            let (name, value) = params[i];
            result.push(name, value);
            i = i + 1;
        }
        result
    }
}

/// An iterator over the names and values of connection parameters.
pub struct ConnectionParameterIterator<'a> {
    index: usize,
    params: &'a ConnectionParameters,
}

impl<'a> ConnectionParameterIterator<'a> {
    /// The parameters visited.
    pub closed spec fn spec_params(self) -> &'a ConnectionParameters {
        self.params
    }

    /// The position of the next parameter.
    pub closed spec fn spec_index(self) -> usize {
        self.index
    }

    /// Name and value of the next parameter, or `None` after the last one.
    pub fn next(&mut self) -> (r: Option<(String, String)>)
        ensures
            final(self).spec_params() == old(self).spec_params(),
            ({
                let ps = old(self).spec_params()@;
                let i = old(self).spec_index() as int;
                if i < ps.len() {
                    &&& r matches Some((n, v)) && n@ == uc_chars(ps[i].0) && v@ == uc_chars(ps[i].1)
                    &&& final(self).spec_index() == i + 1
                } else {
                    &&& r is None
                    &&& final(self).spec_index() == i
                }
            }),
    {
        let n = self.params.len();
        let res = self.params.get(self.index);
        if self.index < n {
            self.index = self.index + 1;
        }
        res
    }
}

/// A parameter added with a name and a value that hold no nul character reads back as
/// that name and value.
pub proof fn lemma_parameter_roundtrip(name: Seq<char>, value: Seq<char>)
    requires
        has_no_nul(name),
        has_no_nul(value),
    ensures
        uc_chars(uc_string_units(name)) == name,
        uc_chars(uc_string_units(value)) == value,
{
    lemma_uc_string_text(name);
    lemma_uc_string_text(value);
}

} // verus!
