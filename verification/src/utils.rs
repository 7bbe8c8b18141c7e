//! Small string helpers shared by the rest of the crate.

use vstd::prelude::*;
use vstd::string::StringExecFns;

verus! {

/// Extra operations on owned text.
pub trait StringFeatures {
    /// The characters held by the value.
    spec fn text(&self) -> Seq<char>;

    /// Fills the value with `content` when it holds nothing, and leaves it
    /// alone otherwise.
    fn insert_if_empty(&mut self, content: &str)
        ensures
            old(self).text().len() == 0 ==> final(self).text() == content@,
            old(self).text().len() != 0 ==> final(self).text() == old(self).text(),
    ;
}

impl StringFeatures for String {
    open spec fn text(&self) -> Seq<char> {
        self@
    }

    fn insert_if_empty(&mut self, content: &str) {
        if self.as_str().is_empty() {
            self.append(content);
            assert(self@ =~= content@);
        }
    }
}

} // verus!
