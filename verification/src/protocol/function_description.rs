use vstd::prelude::*;

use crate::protocol::enums::ParameterDirection;
use crate::protocol::types::error::{is_buffer_too_small, zeros, RfcResult};
use crate::protocol::types::exception::ExceptionDescription;
use crate::protocol::types::parameter_description::ParameterDescription;
use crate::protocol::types::type_description::name_key;
use crate::protocol::uc_str::{
    fits_with_nul, has_no_nul, lemma_written_with_nul_text, uc_chars, uc_text, uc_text_equal,
    written_with_nul, UCStr,
};
use crate::protocol::uc_string::{lemma_uc_string_text, uc_string_units, UCString};

verus! {

/// Metadata description of a function module: its name, its parameters and its
/// exceptions, in the order in which they were added.
#[derive(Debug, PartialEq, Eq, Hash)]
pub struct FuncDesc<'a> {
    name: [u16; 31],
    parameters: Vec<ParameterDescription<'a>>,
    exceptions: Vec<ExceptionDescription>,
}

impl<'a> FuncDesc<'a> {
    /// The name of the function: a nul-terminated buffer of 31 code units.
    pub closed spec fn spec_name(self) -> Seq<u16> {
        self.name@
    }

    /// The parameters of the function, in order.
    pub closed spec fn spec_parameters(self) -> Seq<ParameterDescription<'a>> {
        self.parameters@
    }

    /// The exceptions of the function, in order.
    pub closed spec fn spec_exceptions(self) -> Seq<ExceptionDescription> {
        self.exceptions@
    }

    /// Whether the parameter at `i` has the name that `name` is looked up by.
    pub open spec fn parameter_has_name(self, i: int, name: Seq<char>) -> bool {
        uc_text(self.spec_parameters()[i].spec_name()) == name_key(name)
    }

    /// Whether the exception at `i` has the key that `name` is looked up by.
    pub open spec fn exception_has_key(self, i: int, name: Seq<char>) -> bool {
        uc_text(self.spec_exceptions()[i]@.key@) == name_key(name)
    }

    /// Whether the parameter at `i` has the given direction.
    pub open spec fn parameter_has_direction(self, i: int, direction: ParameterDirection) -> bool {
        self.spec_parameters()[i].spec_direction() == direction
    }

    /// The name of the function.
    pub fn name(&self) -> (r: String)
        ensures
            r@ == uc_chars(self.spec_name()),
    {
        UCStr::slice_to_string_lossy(&self.name)
    }

    /// The number of parameters of the function.
    pub fn parameter_count(&self) -> (r: usize)
        ensures
            r == self.spec_parameters().len(),
    {
        self.parameters.len()
    }

    /// An iterator over the parameters of the given direction, in order.
    pub fn parameters(&'a self, direction: ParameterDirection) -> (r: ParameterIterator<'a>)
        ensures
            r.spec_desc() == self,
            r.spec_index() == 0,
            r.spec_direction() == direction,
            r.spec_remaining() == parameters_of_direction(self.spec_parameters(), direction),
    {
        proof {
            assert(self.spec_parameters().skip(0) =~= self.spec_parameters());
        }
        ParameterIterator { desc: self, index: 0, direction }
    }

    /// The first parameter with the given name, or `None` where no parameter has it.
    pub fn get_parameter_by_name(&self, name: &str) -> (r: Option<ParameterDescription<'a>>)
        ensures
            r matches Some(p) ==> exists|i: int|
                0 <= i < self.spec_parameters().len() && self.parameter_has_name(i, name@) && p
                    == self.spec_parameters()[i] && forall|j: int|
                    0 <= j < i ==> !self.parameter_has_name(j, name@),
            r is None ==> forall|i: int|
                0 <= i < self.spec_parameters().len() ==> !self.parameter_has_name(i, name@),
    {
        let key = UCString::from_str(name);
        let mut i: usize = 0;
        while i < self.parameters.len()
            invariant
                i <= self.parameters@.len(),
                key@ == uc_string_units(name@),
                forall|j: int| 0 <= j < i ==> !self.parameter_has_name(j, name@),
            decreases self.parameters@.len() - i,
        {
            if uc_text_equal(self.parameters[i].name_units(), key.as_slice()) {
                let p = self.parameters[i];
                proof {
                    assert(self.parameter_has_name(i as int, name@));
                    assert(p == self.spec_parameters()[i as int]);
                }
                return Some(p);
            }
            i = i + 1;
        }
        None
    }

    /// The parameter at the given position, or `None` where the position is out of range.
    pub fn get_parameter_by_index(&self, idx: usize) -> (r: Option<ParameterDescription<'a>>)
        ensures
            idx < self.spec_parameters().len() ==> r == Some(self.spec_parameters()[idx as int]),
            idx >= self.spec_parameters().len() ==> r is None,
    {
        if idx >= self.parameter_count() {
            None
        } else {
            Some(self.parameters[idx])
        }
    }

    /// The number of exceptions of the function.
    pub fn exception_count(&self) -> (r: usize)
        ensures
            r == self.spec_exceptions().len(),
    {
        self.exceptions.len()
    }

    /// An iterator over the exceptions, in order.
    pub fn exceptions(&'a self) -> (r: ExceptionIterator<'a>)
        ensures
            r.spec_desc() == self,
            r.spec_index() == 0,
            r.spec_remaining() == self.spec_exceptions(),
    {
        proof {
            assert(self.spec_exceptions().skip(0) =~= self.spec_exceptions());
        }
        ExceptionIterator { desc: self, index: 0 }
    }

    /// The first exception with the given key, or `None` where no exception has it.
    pub fn get_exception_by_name(&self, name: &str) -> (r: Option<ExceptionDescription>)
        ensures
            r matches Some(x) ==> exists|i: int|
                0 <= i < self.spec_exceptions().len() && self.exception_has_key(i, name@) && x
                    == self.spec_exceptions()[i] && forall|j: int|
                    0 <= j < i ==> !self.exception_has_key(j, name@),
            r is None ==> forall|i: int|
                0 <= i < self.spec_exceptions().len() ==> !self.exception_has_key(i, name@),
    {
        let key = UCString::from_str(name);
        let mut i: usize = 0;
        while i < self.exceptions.len()
            invariant
                i <= self.exceptions@.len(),
                key@ == uc_string_units(name@),
                forall|j: int| 0 <= j < i ==> !self.exception_has_key(j, name@),
            decreases self.exceptions@.len() - i,
        {
            if uc_text_equal(self.exceptions[i].key_units(), key.as_slice()) {
                let x = self.exceptions[i];
                proof {
                    assert(self.exception_has_key(i as int, name@));
                    assert(x == self.spec_exceptions()[i as int]);
                }
                return Some(x);
            }
            i = i + 1;
        }
        None
    }

    /// The exception at the given position, or `None` where the position is out of range.
    pub fn get_exception_by_index(&self, idx: usize) -> (r: Option<ExceptionDescription>)
        ensures
            idx < self.spec_exceptions().len() ==> r == Some(self.spec_exceptions()[idx as int]),
            idx >= self.spec_exceptions().len() ==> r is None,
    {
        if idx >= self.exceptions.len() {
            None
        } else {
            Some(self.exceptions[idx])
        }
    }
}

/// An iterator over the parameters of one direction of a function description.
#[derive(Debug)]
pub struct ParameterIterator<'a> {
    desc: &'a FuncDesc<'a>,
    index: usize,
    direction: ParameterDirection,
}

impl<'a> ParameterIterator<'a> {
    /// The function description whose parameters are visited.
    pub closed spec fn spec_desc(self) -> &'a FuncDesc<'a> {
        self.desc
    }

    /// The position at which the search for the next parameter starts.
    pub closed spec fn spec_index(self) -> usize {
        self.index
    }

    /// The direction of the parameters visited.
    pub closed spec fn spec_direction(self) -> ParameterDirection {
        self.direction
    }

    /// The parameters that the iterator has still to return, in order: those of its
    /// direction at or behind its position.
    pub open spec fn spec_remaining(self) -> Seq<ParameterDescription<'a>> {
        let ps = self.spec_desc().spec_parameters();
        if self.spec_index() >= ps.len() {
            Seq::empty()
        } else {
            parameters_of_direction(ps.skip(self.spec_index() as int), self.spec_direction())
        }
    }

    /// The next parameter of the direction at or behind the current position, or `None`
    /// where there is none; the position moves behind the parameter returned, or to the
    /// end.
    pub fn next(&mut self) -> (r: Option<ParameterDescription<'a>>)
        ensures
            final(self).spec_desc() == old(self).spec_desc(),
            final(self).spec_direction() == old(self).spec_direction(),
            ({
                let d = *old(self).spec_desc();
                let start = old(self).spec_index() as int;
                let dir = old(self).spec_direction();
                match r {
                    Some(p) => {
                        let j = final(self).spec_index() - 1;
                        &&& start <= j < d.spec_parameters().len()
                        &&& p == d.spec_parameters()[j]
                        &&& d.parameter_has_direction(j, dir)
                        &&& forall|k: int| start <= k < j ==> !d.parameter_has_direction(k, dir)
                    },
                    None => {
                        &&& forall|k: int|
                            start <= k < d.spec_parameters().len() ==> !d.parameter_has_direction(
                                k,
                                dir,
                            )
                        &&& final(self).spec_index() >= d.spec_parameters().len()
                        &&& final(self).spec_index() >= start
                    },
                }
            }),
            r matches Some(p) ==> old(self).spec_remaining() == seq![p]
                + final(self).spec_remaining(),
            r is None ==> old(self).spec_remaining() == Seq::<ParameterDescription<'a>>::empty()
                && final(self).spec_remaining() == Seq::<ParameterDescription<'a>>::empty(),
    {
        let ghost start = self.index;
        let n = self.desc.parameter_count();
        loop
            invariant
                self.desc == old(self).desc,
                self.direction == old(self).direction,
                n == self.desc.spec_parameters().len(),
                start == old(self).index,
                start <= self.index,
                forall|k: int|
                    start <= k < self.index && k < self.desc.spec_parameters().len()
                        ==> !self.desc.parameter_has_direction(k, self.direction),
            decreases self.desc.spec_parameters().len() - self.index,
        {
            if self.index >= n {
                proof {
                    if start < n {
                        lemma_skip_other_directions(*self.desc, self.direction, start as int, n as int);
                    }
                }
                return None;
            }
            let param = self.desc.parameters[self.index];
            self.index = self.index + 1;
            if param.direction() == self.direction {
                proof {
                    let j = self.index - 1;
                    lemma_skip_other_directions(*self.desc, self.direction, start as int, j);
                    lemma_parameters_of_direction_at(*self.desc, self.direction, j);
                }
                return Some(param);
            }
        }
    }
}

/// An iterator over the exceptions of a function description.
#[derive(Debug)]
pub struct ExceptionIterator<'a> {
    desc: &'a FuncDesc<'a>,
    index: usize,
}

impl<'a> ExceptionIterator<'a> {
    /// The function description whose exceptions are visited.
    pub closed spec fn spec_desc(self) -> &'a FuncDesc<'a> {
        self.desc
    }

    /// The position of the next exception.
    pub closed spec fn spec_index(self) -> usize {
        self.index
    }

    /// The exceptions that the iterator has still to return, in order: those at or
    /// behind its position.
    pub open spec fn spec_remaining(self) -> Seq<ExceptionDescription> {
        let xs = self.spec_desc().spec_exceptions();
        if self.spec_index() >= xs.len() {
            Seq::empty()
        } else {
            xs.skip(self.spec_index() as int)
        }
    }

    /// The next exception, or `None` after the last one.
    pub fn next(&mut self) -> (r: Option<ExceptionDescription>)
        ensures
            final(self).spec_desc() == old(self).spec_desc(),
            old(self).spec_index() < old(self).spec_desc().spec_exceptions().len() ==> r == Some(
                old(self).spec_desc().spec_exceptions()[old(self).spec_index() as int],
            ) && final(self).spec_index() == old(self).spec_index() + 1,
            old(self).spec_index() >= old(self).spec_desc().spec_exceptions().len() ==> r is None
                && final(self).spec_index() == old(self).spec_index(),
            r matches Some(x) ==> old(self).spec_remaining() == seq![x]
                + final(self).spec_remaining(),
            r is None ==> old(self).spec_remaining() == Seq::<ExceptionDescription>::empty()
                && final(self).spec_remaining() == Seq::<ExceptionDescription>::empty(),
    {
        proof {
            let xs = self.desc.spec_exceptions();
            let i = self.index as int;
            if i < xs.len() {
                assert(xs.skip(i) =~= seq![xs[i]] + xs.skip(i + 1));
                if i + 1 == xs.len() {
                    assert(xs.skip(i + 1) =~= Seq::<ExceptionDescription>::empty());
                }
            }
        }
        if self.index < self.desc.exception_count() {
            let x = self.desc.exceptions[self.index];
            self.index = self.index + 1;
            Some(x)
        } else {
            None
        }
    }
}

/// Metadata description of a function module that the library owns.
///
/// It is created empty with [`new`], and parameters and exceptions are added to it with
/// [`add_parameter`] and [`add_exception`].
///
/// [`new`]: FunctionDescription::new
/// [`add_parameter`]: FunctionDescription::add_parameter
/// [`add_exception`]: FunctionDescription::add_exception
#[derive(Debug, PartialEq, Eq, Hash)]
pub struct FunctionDescription<'a> {
    desc: FuncDesc<'a>,
}

impl<'a> View for FunctionDescription<'a> {
    type V = FuncDesc<'a>;

    closed spec fn view(&self) -> FuncDesc<'a> {
        self.desc
    }
}

impl<'a> FunctionDescription<'a> {
    /// Creates an empty function description with the given name.
    ///
    /// Fails where the name does not fit into the 30 characters of an ABAP name.
    pub fn new(name: &str) -> (r: RfcResult<Self>)
        ensures
            r is Ok <==> fits_with_nul(31, name@),
            r matches Ok(f) ==> f@.spec_name() == written_with_nul(zeros(31), name@)
                && f@.spec_parameters() == Seq::<ParameterDescription<'a>>::empty()
                && f@.spec_exceptions() == Seq::<ExceptionDescription>::empty(),
            r matches Err(e) ==> is_buffer_too_small(e),
    {
        let mut uc_name: [u16; 31] = [0u16; 31];
        proof {
            assert(uc_name@ =~= zeros(31));
        }
        UCStr::write_slice(&mut uc_name, name)?;
        Ok(
            FunctionDescription {
                desc: FuncDesc { name: uc_name, parameters: Vec::new(), exceptions: Vec::new() },
            },
        )
    }

    /// The function description as borrowed function description.
    pub fn as_desc(&self) -> (r: &FuncDesc<'a>)
        ensures
            *r == self@,
    {
        &self.desc
    }

    /// Adds a parameter behind the existing ones.
    pub fn add_parameter(&mut self, param: &ParameterDescription<'a>) -> (r: RfcResult<()>)
        ensures
            r is Ok,
            final(self)@.spec_name() == old(self)@.spec_name(),
            final(self)@.spec_parameters() == old(self)@.spec_parameters().push(*param),
            final(self)@.spec_exceptions() == old(self)@.spec_exceptions(),
    {
        self.desc.parameters.push(*param);
        Ok(())
    }

    /// Adds an exception behind the existing ones.
    pub fn add_exception(&mut self, exception: ExceptionDescription) -> (r: RfcResult<()>)
        ensures
            r is Ok,
            final(self)@.spec_name() == old(self)@.spec_name(),
            final(self)@.spec_parameters() == old(self)@.spec_parameters(),
            final(self)@.spec_exceptions() == old(self)@.spec_exceptions().push(exception),
    {
        self.desc.exceptions.push(exception);
        Ok(())
    }
}

impl<'a> core::ops::Deref for FunctionDescription<'a> {
    type Target = FuncDesc<'a>;

    fn deref(&self) -> (r: &FuncDesc<'a>)
        ensures
            *r == self@,
    {
        &self.desc
    }
}

/// After a parameter named `name` has been added to a function description in which no
/// parameter has that name, looking the name up finds the new parameter: it has the
/// name, and no parameter before it does.
pub proof fn lemma_get_parameter_after_add<'a>(
    old_desc: FuncDesc<'a>,
    new_desc: FuncDesc<'a>,
    param: ParameterDescription<'a>,
    name: Seq<char>,
)
    requires
        has_no_nul(name),
        fits_with_nul(31, name),
        param.spec_name() == written_with_nul(zeros(31), name),
        new_desc.spec_parameters() == old_desc.spec_parameters().push(param),
        forall|i: int|
            0 <= i < old_desc.spec_parameters().len() ==> !old_desc.parameter_has_name(i, name),
    ensures
        new_desc.parameter_has_name(old_desc.spec_parameters().len() as int, name),
        forall|j: int|
            0 <= j < old_desc.spec_parameters().len() ==> !new_desc.parameter_has_name(j, name),
{
    lemma_written_with_nul_text(zeros(31), name);
    lemma_uc_string_text(name);
    let k = old_desc.spec_parameters().len() as int;
    assert(new_desc.spec_parameters()[k] == param);
    assert forall|j: int| 0 <= j < k implies !new_desc.parameter_has_name(j, name) by {
        assert(new_desc.spec_parameters()[j] == old_desc.spec_parameters()[j]);
        assert(!old_desc.parameter_has_name(j, name));
    }
}

/// After an exception whose key reads as `name` has been added to a function description
/// in which no exception has that key, looking the name up finds the new exception: it
/// has the key, and no exception before it does.
pub proof fn lemma_get_exception_after_add<'a>(
    old_desc: FuncDesc<'a>,
    new_desc: FuncDesc<'a>,
    exception: ExceptionDescription,
    name: Seq<char>,
)
    requires
        uc_text(exception@.key@) == name_key(name),
        new_desc.spec_exceptions() == old_desc.spec_exceptions().push(exception),
        forall|i: int|
            0 <= i < old_desc.spec_exceptions().len() ==> !old_desc.exception_has_key(i, name),
    ensures
        new_desc.exception_has_key(old_desc.spec_exceptions().len() as int, name),
        forall|j: int|
            0 <= j < old_desc.spec_exceptions().len() ==> !new_desc.exception_has_key(j, name),
{
    let k = old_desc.spec_exceptions().len() as int;
    assert(new_desc.spec_exceptions()[k] == exception);
    assert forall|j: int| 0 <= j < k implies !new_desc.exception_has_key(j, name) by {
        assert(new_desc.spec_exceptions()[j] == old_desc.spec_exceptions()[j]);
        assert(!old_desc.exception_has_key(j, name));
    }
}

/// The parameters of `params` whose direction is `dir`, in their order.
pub open spec fn parameters_of_direction<'a>(
    params: Seq<ParameterDescription<'a>>,
    dir: ParameterDirection,
) -> Seq<ParameterDescription<'a>>
    decreases params.len(),
{
    if params.len() == 0 {
        Seq::empty()
    } else {
        let rest = parameters_of_direction(params.skip(1), dir);
        if params[0].spec_direction() == dir {
            seq![params[0]] + rest
        } else {
            rest
        }
    }
}

/// Parameters of other directions in front of position `j` do not count: from `start`
/// on, the parameters of direction `dir` are those from `j` on.
proof fn lemma_skip_other_directions<'a>(
    d: FuncDesc<'a>,
    dir: ParameterDirection,
    start: int,
    j: int,
)
    requires
        0 <= start <= j <= d.spec_parameters().len(),
        forall|k: int| start <= k < j ==> !d.parameter_has_direction(k, dir),
    ensures
        parameters_of_direction(d.spec_parameters().skip(start), dir) == parameters_of_direction(
            d.spec_parameters().skip(j),
            dir,
        ),
        j == d.spec_parameters().len() ==> parameters_of_direction(
            d.spec_parameters().skip(start),
            dir,
        ) == Seq::<ParameterDescription<'a>>::empty(),
    decreases j - start,
{
    let ps = d.spec_parameters();
    if start < j {
        let t = ps.skip(start);
        assert(t.skip(1) =~= ps.skip(start + 1));
        assert(t[0] == ps[start]);
        assert(!d.parameter_has_direction(start, dir));
        lemma_skip_other_directions(d, dir, start + 1, j);
    } else if j == ps.len() {
        assert(ps.skip(j).len() == 0);
    }
}

/// From a parameter of direction `dir` on, the parameters of that direction are that
/// parameter followed by those behind it.
proof fn lemma_parameters_of_direction_at<'a>(d: FuncDesc<'a>, dir: ParameterDirection, j: int)
    requires
        0 <= j < d.spec_parameters().len(),
        d.parameter_has_direction(j, dir),
    ensures
        parameters_of_direction(d.spec_parameters().skip(j), dir) == seq![d.spec_parameters()[j]]
            + (if j + 1 >= d.spec_parameters().len() {
            Seq::<ParameterDescription<'a>>::empty()
        } else {
            parameters_of_direction(d.spec_parameters().skip(j + 1), dir)
        }),
{
    let ps = d.spec_parameters();
    let t = ps.skip(j);
    assert(t.skip(1) =~= ps.skip(j + 1));
    assert(t[0] == ps[j]);
    assert(t.len() > 0);
    assert(parameters_of_direction(t, dir) == seq![t[0]] + parameters_of_direction(t.skip(1), dir));
    if j + 1 >= ps.len() {
        assert(ps.skip(j + 1).len() == 0);
        assert(parameters_of_direction(ps.skip(j + 1), dir) =~= Seq::<ParameterDescription<'a>>::empty());
    }
}

/// The parameters of a direction, in order, are the parameters filtered by that
/// direction.
pub proof fn lemma_parameters_of_direction_filter<'a>(
    params: Seq<ParameterDescription<'a>>,
    dir: ParameterDirection,
)
    ensures
        parameters_of_direction(params, dir) == params.filter(
            |p: ParameterDescription<'a>| p.spec_direction() == dir,
        ),
    decreases params.len(),
{
    let pred = |p: ParameterDescription<'a>| p.spec_direction() == dir;
    if params.len() == 0 {
        reveal_with_fuel(Seq::filter, 1);
    } else {
        let head = seq![params[0]];
        let tail = params.skip(1);
        lemma_parameters_of_direction_filter(tail, dir);
        assert(params =~= head + tail);
        Seq::filter_distributes_over_add(head, tail, pred);
        reveal_with_fuel(Seq::filter, 2);
        assert(head.drop_last() =~= Seq::<ParameterDescription<'a>>::empty());
        if pred(params[0]) {
            assert(head.filter(pred) =~= head);
        } else {
            assert(head.filter(pred) =~= Seq::<ParameterDescription<'a>>::empty());
        }
    }
}

/// A whole run of a parameter iterator: where each call of `next` on `steps[i]` returned
/// `items[i]` and left `steps[i + 1]`, and the call on the last state returned `None`,
/// the items returned are exactly what the first state had still to return. For an
/// iterator made by [`FuncDesc::parameters`] these are the parameters of its direction,
/// in order.
pub proof fn lemma_parameter_iteration<'a>(
    steps: Seq<ParameterIterator<'a>>,
    items: Seq<ParameterDescription<'a>>,
)
    requires
        steps.len() == items.len() + 1,
        forall|i: int|
            0 <= i < items.len() ==> #[trigger] steps[i].spec_remaining() == seq![items[i]]
                + steps[i + 1].spec_remaining(),
        steps.last().spec_remaining() == Seq::<ParameterDescription<'a>>::empty(),
    ensures
        items == steps[0].spec_remaining(),
        steps[0].spec_index() == 0 ==> items == steps[0].spec_desc().spec_parameters().filter(
            |p: ParameterDescription<'a>| p.spec_direction() == steps[0].spec_direction(),
        ),
    decreases items.len(),
{
    if items.len() > 0 {
        let s1 = steps.skip(1);
        let i1 = items.skip(1);
        assert forall|i: int| 0 <= i < i1.len() implies #[trigger] s1[i].spec_remaining()
            == seq![i1[i]] + s1[i + 1].spec_remaining() by {
            assert(steps[i + 1].spec_remaining() == seq![items[i + 1]] + steps[i
                + 2].spec_remaining());
        }
        assert(s1.last() == steps.last());
        lemma_parameter_iteration(s1, i1);
        assert(steps[0].spec_remaining() == seq![items[0]] + steps[1].spec_remaining());
        assert(items =~= seq![items[0]] + i1);
    }
    let ps = steps[0].spec_desc().spec_parameters();
    if steps[0].spec_index() == 0 {
        assert(ps.skip(0) =~= ps);
        lemma_parameters_of_direction_filter(ps, steps[0].spec_direction());
        if ps.len() == 0 {
            assert(parameters_of_direction(ps, steps[0].spec_direction()) =~= Seq::<
                ParameterDescription<'a>,
            >::empty());
        }
    }
}

/// A whole run of an exception iterator: where each call of `next` on `steps[i]`
/// returned `items[i]` and left `steps[i + 1]`, and the call on the last state returned
/// `None`, the items returned are exactly what the first state had still to return. For
/// an iterator made by [`FuncDesc::exceptions`] these are all exceptions, in order.
pub proof fn lemma_exception_iteration(
    steps: Seq<ExceptionIterator<'_>>,
    items: Seq<ExceptionDescription>,
)
    requires
        steps.len() == items.len() + 1,
        forall|i: int|
            0 <= i < items.len() ==> #[trigger] steps[i].spec_remaining() == seq![items[i]]
                + steps[i + 1].spec_remaining(),
        steps.last().spec_remaining() == Seq::<ExceptionDescription>::empty(),
    ensures
        items == steps[0].spec_remaining(),
        steps[0].spec_index() == 0 ==> items == steps[0].spec_desc().spec_exceptions(),
    decreases items.len(),
{
    if items.len() > 0 {
        let s1 = steps.skip(1);
        let i1 = items.skip(1);
        assert forall|i: int| 0 <= i < i1.len() implies #[trigger] s1[i].spec_remaining()
            == seq![i1[i]] + s1[i + 1].spec_remaining() by {
            assert(steps[i + 1].spec_remaining() == seq![items[i + 1]] + steps[i
                + 2].spec_remaining());
        }
        assert(s1.last() == steps.last());
        lemma_exception_iteration(s1, i1);
        assert(steps[0].spec_remaining() == seq![items[0]] + steps[1].spec_remaining());
        assert(items =~= seq![items[0]] + i1);
    }
    let xs = steps[0].spec_desc().spec_exceptions();
    if steps[0].spec_index() == 0 {
        assert(xs.skip(0) =~= xs);
    }
}

} // verus!
