//! The window registry: every live window of the application, found by its label.
//!
//! The registry is an owned value that is handed to the commands by reference. It records
//! of each window what the commands read and change: whether it exists, whether it is
//! visible, and which window was brought to the front last.

use crate::window::{Visibility, Window, WindowView};
use vstd::prelude::*;

verus! {

/// Mathematical value of a [`WindowRegistry`].
pub struct RegistryView {
    /// The windows, oldest first.
    pub windows: Seq<WindowView>,
    /// Label of the window that holds the focus: the one that was created or brought to
    /// the front last, as long as it exists.
    pub focus: Option<Seq<char>>,
}

/// Number of windows in `windows` that carry `label`.
pub open spec fn count_in(windows: Seq<WindowView>, label: Seq<char>) -> nat
    decreases windows.len(),
{
    if windows.len() == 0 {
        0
    } else if windows.last().label == label {
        count_in(windows.drop_last(), label) + 1
    } else {
        count_in(windows.drop_last(), label)
    }
}

/// Whether the window at `i` is the oldest in `windows` that carries `label`.
pub open spec fn is_first_in(windows: Seq<WindowView>, label: Seq<char>, i: int) -> bool {
    &&& 0 <= i < windows.len()
    &&& windows[i].label == label
    &&& forall|k: int| 0 <= k < i ==> (#[trigger] windows[k]).label != label
}

/// Place of the oldest window in `windows` that carries `label`.
pub open spec fn index_in(windows: Seq<WindowView>, label: Seq<char>) -> int {
    choose|i: int| is_first_in(windows, label, i)
}

impl RegistryView {
    /// Some window carries `label`.
    pub open spec fn contains(self, label: Seq<char>) -> bool {
        exists|i: int| 0 <= i < self.windows.len() && (#[trigger] self.windows[i]).label == label
    }

    /// Place of the oldest window that carries `label`.
    pub open spec fn index_of(self, label: Seq<char>) -> int {
        index_in(self.windows, label)
    }

    /// No two windows carry the same label.
    pub open spec fn distinct(self) -> bool {
        forall|i: int, j: int|
            0 <= i < j < self.windows.len()
                ==> (#[trigger] self.windows[i]).label != (#[trigger] self.windows[j]).label
    }

    /// Labels are unique, and the focus, if any, is on a window of the registry.
    pub open spec fn wf(self) -> bool {
        &&& self.distinct()
        &&& self.focus matches Some(label) ==> self.contains(label)
    }

    /// Number of windows that carry `label`.
    pub open spec fn count(self, label: Seq<char>) -> nat {
        count_in(self.windows, label)
    }

    /// Visibility of the window labeled `label`, if there is one.
    pub open spec fn visibility(self, label: Seq<char>) -> Option<Visibility> {
        if self.contains(label) {
            Some(self.windows[self.index_of(label)].visibility)
        } else {
            None
        }
    }

    /// The registry once `window` has been registered. A taken label changes nothing.
    pub open spec fn after_insert(self, window: WindowView) -> RegistryView {
        if self.contains(window.label) {
            self
        } else {
            RegistryView { windows: self.windows.push(window), focus: self.focus }
        }
    }

    /// The registry once the window labeled `label` has been shown.
    pub open spec fn after_show(self, label: Seq<char>) -> RegistryView {
        if self.contains(label) {
            RegistryView {
                windows: self.windows.update(
                    self.index_of(label),
                    WindowView { label, visibility: Visibility::Visible },
                ),
                focus: self.focus,
            }
        } else {
            self
        }
    }

    /// The registry once the window labeled `label` has been closed. The focus goes with it.
    pub open spec fn after_close(self, label: Seq<char>) -> RegistryView {
        if self.contains(label) {
            RegistryView {
                windows: self.windows.remove(self.index_of(label)),
                focus: if self.focus == Some(label) {
                    None
                } else {
                    self.focus
                },
            }
        } else {
            self
        }
    }

    /// The registry once the window labeled `label` has been brought to the front.
    pub open spec fn after_focus(self, label: Seq<char>) -> RegistryView {
        if self.contains(label) {
            RegistryView { windows: self.windows, focus: Some(label) }
        } else {
            self
        }
    }

    /// The registry once a window labeled `label` has been created: the new window is
    /// visible and holds the focus. A taken label changes nothing.
    pub open spec fn after_create(self, label: Seq<char>) -> RegistryView {
        if self.contains(label) {
            self
        } else {
            RegistryView {
                windows: self.windows.push(WindowView { label, visibility: Visibility::Visible }),
                focus: Some(label),
            }
        }
    }

    /// Among the windows up to `i` that carry `label` there is an oldest.
    proof fn lemma_oldest(self, label: Seq<char>, i: int)
        requires
            0 <= i < self.windows.len(),
            self.windows[i].label == label,
        ensures
            exists|first: int| is_first_in(self.windows, label, first),
        decreases i,
    {
        if exists|k: int| 0 <= k < i && (#[trigger] self.windows[k]).label == label {
            let k = choose|k: int| 0 <= k < i && (#[trigger] self.windows[k]).label == label;
            self.lemma_oldest(label, k);
        } else {
            assert(is_first_in(self.windows, label, i));
        }
    }

    /// A label that some window carries is found at its oldest window.
    pub proof fn lemma_find(self, label: Seq<char>)
        requires
            self.contains(label),
        ensures
            is_first_in(self.windows, label, self.index_of(label)),
    {
        let i = choose|i: int|
            0 <= i < self.windows.len() && (#[trigger] self.windows[i]).label == label;
        self.lemma_oldest(label, i);
    }

    /// The oldest window that carries a label is the one that the label finds.
    pub proof fn lemma_found(self, label: Seq<char>, i: int)
        requires
            is_first_in(self.windows, label, i),
        ensures
            self.contains(label),
            self.index_of(label) == i,
    {
        let j = self.index_of(label);
        assert(is_first_in(self.windows, label, j));
        if j < i {
            assert(self.windows[j].label != label);
        }
        if i < j {
            assert(self.windows[i].label != label);
        }
    }

    /// In a registry with unique labels, the window at `i` is the one its label finds.
    pub proof fn lemma_index_of(self, i: int)
        requires
            self.distinct(),
            0 <= i < self.windows.len(),
        ensures
            self.contains(self.windows[i].label),
            self.index_of(self.windows[i].label) == i,
            self.visibility(self.windows[i].label) == Some(self.windows[i].visibility),
    {
        let label = self.windows[i].label;
        assert forall|k: int| 0 <= k < i implies (#[trigger] self.windows[k]).label != label by {
            assert(self.windows[k].label != self.windows[i].label);
        }
        self.lemma_found(label, i);
    }

    /// With unique labels, a label is carried by one window or by none.
    pub proof fn lemma_count(self, label: Seq<char>)
        requires
            self.distinct(),
        ensures
            self.count(label) == if self.contains(label) { 1nat } else { 0nat },
        decreases self.windows.len(),
    {
        if self.windows.len() > 0 {
            let rest = RegistryView { windows: self.windows.drop_last(), focus: None };
            let last = self.windows.len() - 1;
            assert(rest.distinct()) by {
                assert forall|i: int, j: int| 0 <= i < j < rest.windows.len() implies
                    (#[trigger] rest.windows[i]).label != (#[trigger] rest.windows[j]).label
                by {
                    assert(self.windows[i].label != self.windows[j].label);
                }
            }
            rest.lemma_count(label);
            if rest.contains(label) {
                rest.lemma_find(label);
                let k = rest.index_of(label);
                assert(self.windows[k].label == label);
                assert(self.windows[k].label != self.windows[last].label);
            } else if self.contains(label) {
                self.lemma_find(label);
                let k = self.index_of(label);
                if k < last {
                    assert(rest.windows[k].label == label);
                }
            }
        }
    }

    /// Registering a window keeps the registry well formed, and adds that window alone.
    pub proof fn lemma_after_insert(self, window: WindowView)
        requires
            self.wf(),
        ensures
            self.after_insert(window).wf(),
            forall|label: Seq<char>|
                self.after_insert(window).contains(label)
                    <==> self.contains(label) || label == window.label,
            forall|label: Seq<char>|
                label != window.label
                    ==> self.after_insert(window).visibility(label) == self.visibility(label),
            !self.contains(window.label)
                ==> self.after_insert(window).visibility(window.label) == Some(window.visibility),
    {
        let after = self.after_insert(window);
        if !self.contains(window.label) {
            let last = self.windows.len() as int;
            assert(after.windows[last] == window);
            assert(after.distinct()) by {
                assert forall|i: int, j: int| 0 <= i < j < after.windows.len() implies
                    (#[trigger] after.windows[i]).label != (#[trigger] after.windows[j]).label
                by {
                    assert(after.windows[i] == self.windows[i]);
                    if j < last {
                        assert(after.windows[j] == self.windows[j]);
                    }
                }
            }
            assert forall|label: Seq<char>|
                after.contains(label) <==> self.contains(label) || label == window.label
            by {
                if self.contains(label) {
                    self.lemma_find(label);
                    assert(after.windows[self.index_of(label)].label == label);
                }
                if after.contains(label) && label != window.label {
                    after.lemma_find(label);
                    assert(self.windows[after.index_of(label)].label == label);
                }
            }
            assert forall|label: Seq<char>| label != window.label implies
                after.visibility(label) == self.visibility(label)
            by {
                if self.contains(label) {
                    self.lemma_find(label);
                    let k = self.index_of(label);
                    assert(after.windows[k] == self.windows[k]);
                    after.lemma_index_of(k);
                }
            }
            after.lemma_index_of(last);
        }
    }

    /// Showing a window keeps the registry well formed and touches that window's
    /// visibility alone.
    pub proof fn lemma_after_show(self, shown: Seq<char>)
        requires
            self.wf(),
        ensures
            self.after_show(shown).wf(),
            self.after_show(shown).windows.len() == self.windows.len(),
            self.after_show(shown).focus == self.focus,
            forall|label: Seq<char>|
                self.after_show(shown).contains(label) <==> self.contains(label),
            forall|label: Seq<char>|
                label != shown
                    ==> self.after_show(shown).visibility(label) == self.visibility(label),
            self.contains(shown)
                ==> self.after_show(shown).visibility(shown) == Some(Visibility::Visible),
    {
        let after = self.after_show(shown);
        if self.contains(shown) {
            self.lemma_find(shown);
            let at = self.index_of(shown);
            assert forall|i: int| 0 <= i < self.windows.len() implies
                (#[trigger] after.windows[i]).label == self.windows[i].label
            by {}
            assert(after.distinct()) by {
                assert forall|i: int, j: int| 0 <= i < j < after.windows.len() implies
                    (#[trigger] after.windows[i]).label != (#[trigger] after.windows[j]).label
                by {
                    assert(self.windows[i].label != self.windows[j].label);
                }
            }
            assert forall|label: Seq<char>| after.contains(label) <==> self.contains(label) by {
                if self.contains(label) {
                    self.lemma_find(label);
                    assert(after.windows[self.index_of(label)].label == label);
                }
                if after.contains(label) {
                    after.lemma_find(label);
                    assert(self.windows[after.index_of(label)].label == label);
                }
            }
            assert forall|label: Seq<char>| label != shown implies
                after.visibility(label) == self.visibility(label)
            by {
                if self.contains(label) {
                    self.lemma_find(label);
                    after.lemma_index_of(self.index_of(label));
                }
            }
            after.lemma_index_of(at);
        }
    }

    /// Closing a window keeps the registry well formed and removes that window alone.
    pub proof fn lemma_after_close(self, gone: Seq<char>)
        requires
            self.wf(),
        ensures
            self.after_close(gone).wf(),
            forall|label: Seq<char>|
                self.after_close(gone).contains(label) <==> self.contains(label) && label != gone,
            forall|label: Seq<char>|
                label != gone
                    ==> self.after_close(gone).visibility(label) == self.visibility(label),
            self.contains(gone) ==> self.after_close(gone).windows.len() + 1 == self.windows.len(),
    {
        let after = self.after_close(gone);
        if self.contains(gone) {
            self.lemma_find(gone);
            let at = self.index_of(gone);
            // The window at `i` after the close stood at `past(i)` before it.
            let past = |i: int| if i < at { i } else { i + 1 };
            assert forall|i: int| 0 <= i < after.windows.len() implies
                #[trigger] after.windows[i] == self.windows[past(i)]
            by {}
            assert(after.distinct()) by {
                assert forall|i: int, j: int| 0 <= i < j < after.windows.len() implies
                    (#[trigger] after.windows[i]).label != (#[trigger] after.windows[j]).label
                by {
                    assert(self.windows[past(i)].label != self.windows[past(j)].label);
                }
            }
            assert forall|label: Seq<char>|
                after.contains(label) <==> self.contains(label) && label != gone
            by {
                if self.contains(label) && label != gone {
                    self.lemma_find(label);
                    let k = self.index_of(label);
                    let now = if k < at { k } else { k - 1 };
                    assert(after.windows[now].label == label);
                }
                if after.contains(label) {
                    after.lemma_find(label);
                    let k = past(after.index_of(label));
                    assert(self.windows[k].label == label);
                    self.lemma_index_of(k);
                }
            }
            assert forall|label: Seq<char>| label != gone implies
                after.visibility(label) == self.visibility(label)
            by {
                if self.contains(label) {
                    self.lemma_find(label);
                    let k = self.index_of(label);
                    let now = if k < at { k } else { k - 1 };
                    assert(after.windows[now] == self.windows[k]);
                    after.lemma_index_of(now);
                }
            }
        }
    }

    /// Creating a window keeps the registry well formed, and adds one visible window that
    /// holds the focus.
    pub proof fn lemma_after_create(self, label: Seq<char>)
        requires
            self.wf(),
        ensures
            self.after_create(label).wf(),
            self.after_create(label).contains(label),
            !self.contains(label) ==> self.after_create(label) == self.after_insert(
                WindowView { label, visibility: Visibility::Visible },
            ).after_focus(label),
    {
        self.lemma_after_insert(WindowView { label, visibility: Visibility::Visible });
    }
}

/// The windows of the application, each under a label of its own.
pub struct WindowRegistry {
    windows: Vec<Window>,
    focus: Option<String>,
}

impl View for WindowRegistry {
    type V = RegistryView;

    closed spec fn view(&self) -> RegistryView {
        RegistryView {
            windows: Seq::new(self.windows@.len(), |i: int| self.windows@[i]@),
            focus: match self.focus {
                Some(label) => Some(label@),
                None => None,
            },
        }
    }
}

impl WindowRegistry {
    /// A registry without windows.
    pub fn new() -> (registry: WindowRegistry)
        ensures
            registry@ == (RegistryView { windows: Seq::empty(), focus: None }),
            registry@.wf(),
    {
        let registry = WindowRegistry { windows: Vec::new(), focus: None };
        assert(registry@.windows == Seq::<WindowView>::empty());
        registry
    }

    /// Number of windows.
    pub fn len(&self) -> (n: usize)
        ensures
            n == self@.windows.len(),
    {
        self.windows.len()
    }

    /// Place of the oldest window labeled `label`.
    fn position(&self, label: &str) -> (found: Option<usize>)
        ensures
            found is Some == self@.contains(label@),
            found matches Some(i) ==> is_first_in(self@.windows, label@, i as int)
                && self@.index_of(label@) == i,
    {
        let wanted = label.to_owned();
        let mut i: usize = 0;
        while i < self.windows.len()
            invariant
                i <= self.windows.len(),
                wanted@ == label@,
                forall|k: int| 0 <= k < i ==> (#[trigger] self@.windows[k]).label != label@,
            decreases self.windows.len() - i,
        {
            if self.windows[i].label == wanted {
                proof {
                    self@.lemma_found(label@, i as int);
                }
                return Some(i);
            }
            i += 1;
        }
        None
    }

    /// Whether a window labeled `label` exists.
    pub fn contains(&self, label: &str) -> (found: bool)
        ensures
            found == self@.contains(label@),
    {
        self.position(label).is_some()
    }

    /// How many windows carry `label`: one or none in a well-formed registry.
    pub fn count(&self, label: &str) -> (n: usize)
        ensures
            n == self@.count(label@),
    {
        let wanted = label.to_owned();
        let mut n: usize = 0;
        let mut i: usize = 0;
        while i < self.windows.len()
            invariant
                i <= self.windows.len(),
                wanted@ == label@,
                n <= i,
                n == count_in(self@.windows.take(i as int), label@),
            decreases self.windows.len() - i,
        {
            assert(self@.windows.take(i + 1).drop_last() == self@.windows.take(i as int));
            if self.windows[i].label == wanted {
                n += 1;
            }
            i += 1;
        }
        assert(self@.windows.take(i as int) == self@.windows);
        n
    }

    /// Visibility of the window labeled `label`; `None` if there is no such window.
    pub fn visibility(&self, label: &str) -> (visibility: Option<Visibility>)
        ensures
            visibility == self@.visibility(label@),
    {
        match self.position(label) {
            Some(i) => Some(self.windows[i].visibility),
            None => None,
        }
    }

    /// Whether the window labeled `label` holds the focus.
    pub fn has_focus(&self, label: &str) -> (held: bool)
        ensures
            held == (self@.focus == Some(label@)),
    {
        match &self.focus {
            Some(focus) => *focus == label.to_owned(),
            None => false,
        }
    }

    /// Registers `window` as it was found. A window whose label is taken is refused, and
    /// the registry stays as it was.
    pub fn insert(&mut self, window: Window) -> (inserted: bool)
        ensures
            inserted == !old(self)@.contains(window@.label),
            final(self)@ == old(self)@.after_insert(window@),
            old(self)@.wf() ==> final(self)@.wf(),
    {
        if self.position(window.label.as_str()).is_some() {
            return false;
        }
        proof {
            if self@.wf() {
                self@.lemma_after_insert(window@);
            }
        }
        self.windows.push(window);
        assert(self@.windows == old(self)@.windows.push(window@));
        true
    }

    /// Shows the window labeled `label`. Returns whether there is such a window.
    pub fn show(&mut self, label: &str) -> (found: bool)
        ensures
            found == old(self)@.contains(label@),
            final(self)@ == old(self)@.after_show(label@),
            old(self)@.wf() ==> final(self)@.wf(),
    {
        match self.position(label) {
            Some(i) => {
                proof {
                    if self@.wf() {
                        self@.lemma_after_show(label@);
                    }
                }
                let shown = Window { label: label.to_owned(), visibility: Visibility::Visible };
                self.windows.set(i, shown);
                assert(self@.windows == old(self)@.after_show(label@).windows);
                true
            },
            None => false,
        }
    }

    /// Closes the window labeled `label`: it leaves the registry, and the focus with it if
    /// it held it. Returns whether there was such a window.
    pub fn close(&mut self, label: &str) -> (found: bool)
        ensures
            found == old(self)@.contains(label@),
            final(self)@ == old(self)@.after_close(label@),
            old(self)@.wf() ==> final(self)@.wf(),
    {
        match self.position(label) {
            Some(i) => {
                proof {
                    if self@.wf() {
                        self@.lemma_after_close(label@);
                    }
                }
                if self.has_focus(label) {
                    self.focus = None;
                }
                self.windows.remove(i);
                assert(self@.windows == old(self)@.after_close(label@).windows);
                true
            },
            None => false,
        }
    }

    /// Brings the window labeled `label` to the front. Returns whether there is such a
    /// window.
    pub fn focus(&mut self, label: &str) -> (found: bool)
        ensures
            found == old(self)@.contains(label@),
            final(self)@ == old(self)@.after_focus(label@),
            old(self)@.wf() ==> final(self)@.wf(),
    {
        if self.position(label).is_some() {
            self.focus = Some(label.to_owned());
            true
        } else {
            false
        }
    }

    /// Creates a window labeled `label`, visible and in front. A taken label is refused,
    /// and the registry stays as it was.
    pub fn create(&mut self, label: &str) -> (created: bool)
        ensures
            created == !old(self)@.contains(label@),
            final(self)@ == old(self)@.after_create(label@),
            old(self)@.wf() ==> final(self)@.wf(),
    {
        if self.position(label).is_some() {
            return false;
        }
        proof {
            if self@.wf() {
                self@.lemma_after_create(label@);
            }
        }
        self.windows.push(Window { label: label.to_owned(), visibility: Visibility::Visible });
        self.focus = Some(label.to_owned());
        assert(self@.windows == old(self)@.after_create(label@).windows);
        true
    }
}

} // verus!
