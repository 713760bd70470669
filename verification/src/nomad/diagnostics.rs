//! Where a diagnostic comes from: a path of segments such as the module's
//! name followed by the action's name.

use vstd::prelude::*;

use super::action::{ActionName, ModuleName};
use super::commands::strs_view;

verus! {

/// The source of a diagnostic: a path of name segments.
pub struct DiagnosticSource {
    segments: Vec<&'static str>,
}

impl DiagnosticSource {
    /// The segments of the path.
    pub closed spec fn segments(&self) -> Seq<Seq<char>> {
        strs_view(self.segments@)
    }

    /// An empty source.
    pub fn new() -> (source: DiagnosticSource)
        ensures
            source.segments() == Seq::<Seq<char>>::empty(),
    {
        let source = DiagnosticSource { segments: Vec::new() };
        assert(source.segments() =~= Seq::<Seq<char>>::empty());
        source
    }

    /// Appends a segment to the path.
    pub fn push_segment(&mut self, segment: &'static str)
        ensures
            final(self).segments() == old(self).segments().push(segment@),
    {
        let ghost before = self.segments@;
        self.segments.push(segment);
        proof {
            assert(self.segments@ == before.push(segment));
            assert(strs_view(self.segments@) =~= strs_view(before).push(segment@));
        }
    }

    /// The source of a diagnostic raised by an action of a module: the
    /// module's name, then the action's.
    pub fn of_action(module: ModuleName, action: ActionName) -> (source: DiagnosticSource)
        ensures
            source.segments() == seq![module.spec_str(), action.spec_str()],
    {
        let mut source = DiagnosticSource::new();
        source.push_segment(module.as_str());
        source.push_segment(action.as_str());
        assert(source.segments() =~= seq![module.spec_str(), action.spec_str()]);
        source
    }

    /// The segments, in order.
    pub fn into_segments(self) -> (segments: Vec<&'static str>)
        ensures
            strs_view(segments@) == self.segments(),
    {
        self.segments
    }
}

} // verus!
