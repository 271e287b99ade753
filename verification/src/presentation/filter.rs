//! The type-to-filter input of the list screens.
use crate::text::push_char;
use vstd::prelude::*;

verus! {

/// Calls `String::pop`, which removes the last character if there is one.
#[verifier::external_body]
fn pop_last_char(s: &mut String)
    ensures
        old(s)@.len() == 0 ==> final(s)@ == old(s)@,
        old(s)@.len() > 0 ==> final(s)@ == old(s)@.drop_last(),
{
    s.pop();
}

/// The text typed into a list screen's filter, and whether the filter input
/// is open.
#[derive(Debug, Clone, PartialEq, Eq)]
pub struct FilterState {
    pub value: String,
    pub active: bool,
}

impl Default for FilterState {
    fn default() -> (r: FilterState)
        ensures
            r.value@.len() == 0,
            !r.active,
    {
        FilterState { value: String::new(), active: false }
    }
}

impl FilterState {
    /// An empty, closed filter.
    pub fn new() -> (r: FilterState)
        ensures
            r.value@.len() == 0,
            !r.active,
    {
        FilterState { value: String::new(), active: false }
    }

    pub fn value(&self) -> (r: &str)
        ensures
            r@ == self.value@,
    {
        self.value.as_str()
    }

    pub fn is_active(&self) -> (r: bool)
        ensures
            r == self.active,
    {
        self.active
    }

    /// The filter text, but only while the filter input is open.
    pub fn active_value(&self) -> (r: Option<&str>)
        ensures
            self.active ==> (r matches Some(v) && v@ == self.value@),
            !self.active ==> r is None,
    {
        if self.active {
            Some(self.value.as_str())
        } else {
            None
        }
    }

    /// Opens the filter input; the text is kept.
    pub fn activate(&mut self)
        ensures
            final(self).active,
            final(self).value@ == old(self).value@,
    {
        self.active = true;
    }

    /// Closes the filter input and forgets the text.
    pub fn deactivate(&mut self)
        ensures
            !final(self).active,
            final(self).value@.len() == 0,
    {
        self.active = false;
        self.value = String::new();
    }

    /// Appends a typed character.
    pub fn push_char(&mut self, c: char)
        ensures
            final(self).active == old(self).active,
            final(self).value@ == old(self).value@.push(c),
    {
        push_char(&mut self.value, c);
    }

    /// Removes the last character, if any.
    pub fn pop_char(&mut self)
        ensures
            final(self).active == old(self).active,
            old(self).value@.len() == 0 ==> final(self).value@ == old(self).value@,
            old(self).value@.len() > 0 ==> final(self).value@ == old(self).value@.drop_last(),
    {
        pop_last_char(&mut self.value);
    }
}

/// Typing a character and then erasing it leaves the filter text as it was.
pub proof fn law_push_then_pop_restores(before: Seq<char>, c: char)
    ensures
        before.push(c).len() > 0,
        before.push(c).drop_last() == before,
{
    assert(before.push(c).drop_last() =~= before);
}

} // verus!
