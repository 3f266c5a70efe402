//! What a command asks of the windowing toolkit, and what a request that the toolkit
//! carried out does to the registry.

use crate::registry::{RegistryView, WindowRegistry};
use crate::window::{Visibility, WindowConfig, WindowConfigView, WindowView};
use vstd::prelude::*;

verus! {

/// One call into the windowing toolkit. A command makes at most one.
#[derive(Clone, Debug, PartialEq, Eq)]
pub enum Request {
    /// Make the window with this label visible.
    Show(String),
    /// Close the window with this label.
    Close(String),
    /// Bring the window with this label to the front and give it the focus.
    Focus(String),
    /// Build a window as described, under the label that the description names.
    Create(WindowConfig),
}

/// Mathematical value of a [`Request`].
pub enum RequestView {
    Show(Seq<char>),
    Close(Seq<char>),
    Focus(Seq<char>),
    Create(WindowConfigView),
}

impl View for Request {
    type V = RequestView;

    open spec fn view(&self) -> RequestView {
        match self {
            Request::Show(label) => RequestView::Show(label@),
            Request::Close(label) => RequestView::Close(label@),
            Request::Focus(label) => RequestView::Focus(label@),
            Request::Create(config) => RequestView::Create(config@),
        }
    }
}

impl RequestView {
    /// Label of the window that the request is about.
    pub open spec fn label(self) -> Seq<char> {
        match self {
            RequestView::Show(label) => label,
            RequestView::Close(label) => label,
            RequestView::Focus(label) => label,
            RequestView::Create(config) => config.label,
        }
    }
}

impl RegistryView {
    /// Whether the registry can take `request`: a window to show, close or focus has to
    /// exist, and the label of a window to create has to be free.
    pub open spec fn admits(self, request: RequestView) -> bool {
        match request {
            RequestView::Show(label) => self.contains(label),
            RequestView::Close(label) => self.contains(label),
            RequestView::Focus(label) => self.contains(label),
            RequestView::Create(config) => !self.contains(config.label),
        }
    }

    /// The registry once the toolkit has carried out `request`. A request that the registry
    /// cannot take changes nothing.
    pub open spec fn after(self, request: RequestView) -> RegistryView {
        match request {
            RequestView::Show(label) => self.after_show(label),
            RequestView::Close(label) => self.after_close(label),
            RequestView::Focus(label) => self.after_focus(label),
            RequestView::Create(config) => self.after_create(config.label),
        }
    }

    /// The registry after a command: after its request, if it made one.
    pub open spec fn after_decision(self, decided: Option<RequestView>) -> RegistryView {
        match decided {
            Some(request) => self.after(request),
            None => self,
        }
    }

    /// Whatever the toolkit carries out, no label comes to be carried twice, the focus stays
    /// on a window of the registry, and every window but the one that the request is about
    /// is there, and visible, as it was.
    pub proof fn lemma_after(self, request: RequestView)
        requires
            self.wf(),
        ensures
            self.after(request).wf(),
            forall|label: Seq<char>|
                label != request.label() ==> self.after(request).contains(label)
                    == self.contains(label),
            forall|label: Seq<char>|
                label != request.label() ==> self.after(request).visibility(label)
                    == self.visibility(label),
    {
        match request {
            RequestView::Show(label) => self.lemma_after_show(label),
            RequestView::Close(label) => self.lemma_after_close(label),
            RequestView::Focus(label) => {},
            RequestView::Create(config) => self.lemma_after_insert(
                WindowView { label: config.label, visibility: Visibility::Visible },
            ),
        }
    }
}

impl WindowRegistry {
    /// Records that the toolkit carried out `request`. Returns whether the registry could
    /// take it; if not, the registry stays as it was.
    pub fn apply(&mut self, request: &Request) -> (admitted: bool)
        ensures
            admitted == old(self)@.admits(request@),
            final(self)@ == old(self)@.after(request@),
            old(self)@.wf() ==> final(self)@.wf(),
    {
        match request {
            Request::Show(label) => self.show(label.as_str()),
            Request::Close(label) => self.close(label.as_str()),
            Request::Focus(label) => self.focus(label.as_str()),
            Request::Create(config) => self.create(config.label.as_str()),
        }
    }
}

} // verus!
