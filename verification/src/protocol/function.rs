use vstd::prelude::*;

use crate::protocol::function_description::FuncDesc;
use crate::protocol::types::error::{is_invalid_parameter, RfcError, RfcResult};
use crate::protocol::uc_str::uc_text_equal;
use crate::protocol::uc_string::{uc_string_units, UCString};

verus! {

/// A function container: the data of one call of a function module, made from its
/// description. It records which parameters take part in the call.
#[derive(Debug)]
pub struct Function<'a> {
    desc: &'a FuncDesc<'a>,
    active: Vec<bool>,
}

/// The message of the error for a parameter name that the function does not have.
pub open spec fn unknown_parameter_message() -> Seq<char> {
    "The function has no parameter of this name"@
}

impl<'a> Function<'a> {
    /// The description the function container was made from.
    pub closed spec fn spec_desc(self) -> &'a FuncDesc<'a> {
        self.desc
    }

    /// For each parameter of the description, whether it takes part in the call.
    pub closed spec fn spec_active(self) -> Seq<bool> {
        self.active@
    }

    #[verifier::type_invariant]
    closed spec fn inv(self) -> bool {
        self.active@.len() == self.desc.spec_parameters().len()
    }

    /// A function container for the described function module; all its parameters take
    /// part in the call.
    pub fn from_desc(desc: &'a FuncDesc<'a>) -> (r: RfcResult<Self>)
        ensures
            r matches Ok(f) && f.spec_desc() == desc && f.spec_active() == Seq::new(
                desc.spec_parameters().len(),
                |i: int| true,
            ),
    {
        let n = desc.parameter_count();
        let mut active: Vec<bool> = Vec::new();
        let mut i: usize = 0;
        while i < n
            invariant
                i <= n,
                n == desc.spec_parameters().len(),
                active@ == Seq::new(i as nat, |k: int| true),
            decreases n - i,
        {
            active.push(true);
            assert(active@ =~= Seq::new((i + 1) as nat, |k: int| true));
            i = i + 1;
        }
        Ok(Function { desc, active })
    }

    /// Sets whether the first parameter of the given name takes part in the call. Fails,
    /// leaving the container unchanged, where the function has no parameter of that name.
    pub fn set_parameter_active(&mut self, name: &str, active: bool) -> (r: RfcResult<()>)
        ensures
            final(self).spec_desc() == old(self).spec_desc(),
            ({
                let d = *old(self).spec_desc();
                if exists|i: int| 0 <= i < d.spec_parameters().len() && d.parameter_has_name(i, name@) {
                    &&& r is Ok
                    &&& exists|i: int|
                        0 <= i < d.spec_parameters().len() && d.parameter_has_name(i, name@)
                            && (forall|j: int| 0 <= j < i ==> !d.parameter_has_name(j, name@))
                            && final(self).spec_active() == old(self).spec_active().update(
                            i,
                            active,
                        )
                } else {
                    &&& r matches Err(e) && is_invalid_parameter(e, unknown_parameter_message())
                    &&& final(self).spec_active() == old(self).spec_active()
                }
            }),
    {
        proof {
            use_type_invariant(&*self);
        }
        let key = UCString::from_str(name);
        let n = self.desc.parameter_count();
        let mut i: usize = 0;
        while i < n
            invariant
                i <= n,
                n == self.desc.spec_parameters().len(),
                n == self.active@.len(),
                *self == *old(self),
                key@ == uc_string_units(name@),
                forall|j: int| 0 <= j < i ==> !self.desc.parameter_has_name(j, name@),
            decreases n - i,
        {
            let param = self.desc.get_parameter_by_index(i).unwrap();
            if uc_text_equal(param.name_units(), key.as_slice()) {
                proof {
                    assert(self.desc.parameter_has_name(i as int, name@));
                }
                let mut flags: Vec<bool> = Vec::new();
                let mut k: usize = 0;
                while k < n
                    invariant
                        k <= n,
                        n == self.active@.len(),
                        *self == *old(self),
                        i < n,
                        flags@ == self.active@.update(i as int, active).take(k as int),
                    decreases n - k,
                {
                    if k == i {
                        flags.push(active);
                    } else {
                        flags.push(self.active[k]);
                    }
                    assert(flags@ =~= self.active@.update(i as int, active).take(k + 1));
                    k = k + 1;
                }
                assert(flags@ =~= self.active@.update(i as int, active));
                *self = Function { desc: self.desc, active: flags };
                return Ok(());
            }
            i = i + 1;
        }
        Err(RfcError::invalid_parameter("The function has no parameter of this name"))
    }
}

} // verus!
