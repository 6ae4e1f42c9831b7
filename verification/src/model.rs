//! Data model of the synchronization protocol: source-side records parsed
//! from the feed, the destination calendar handle, and the destination event
//! record that is written back to the server.

use vstd::prelude::*;

verus! {

// ---------------------------------------------------------------------------
// Source side: what the feed parser hands out.
// ---------------------------------------------------------------------------

/// One property of a source event: a name and an optionally absent value.
pub struct SourceProperty {
    pub name: String,
    pub value: Option<String>,
}

/// Mathematical model of a source property.
pub struct SourcePropertyView {
    pub name: Seq<char>,
    pub value: Option<Seq<char>>,
}

impl View for SourceProperty {
    type V = SourcePropertyView;

    open spec fn view(&self) -> SourcePropertyView {
        SourcePropertyView { name: self.name@, value: self.value.deep_view() }
    }
}

impl DeepView for SourceProperty {
    type V = SourcePropertyView;

    open spec fn deep_view(&self) -> SourcePropertyView {
        self.view()
    }
}

/// One event of the source feed: an ordered sequence of properties.
pub struct SourceEvent {
    pub properties: Vec<SourceProperty>,
}

impl View for SourceEvent {
    type V = Seq<SourcePropertyView>;

    open spec fn view(&self) -> Seq<SourcePropertyView> {
        self.properties.deep_view()
    }
}

impl DeepView for SourceEvent {
    type V = Seq<SourcePropertyView>;

    open spec fn deep_view(&self) -> Seq<SourcePropertyView> {
        self.view()
    }
}

/// The first calendar object of the feed: an ordered sequence of events.
pub struct SourceCalendar {
    pub events: Vec<SourceEvent>,
}

impl View for SourceCalendar {
    type V = Seq<Seq<SourcePropertyView>>;

    open spec fn view(&self) -> Seq<Seq<SourcePropertyView>> {
        self.events.deep_view()
    }
}

// ---------------------------------------------------------------------------
// Destination side: the calendar handle and the event record written to it.
// ---------------------------------------------------------------------------

/// A calendar on the destination server: a display name and a locator.
pub struct Calendar {
    pub name: String,
    pub url: String,
}

/// Mathematical model of a destination calendar handle.
pub struct CalendarView {
    pub name: Seq<char>,
    pub url: Seq<char>,
}

impl View for Calendar {
    type V = CalendarView;

    open spec fn view(&self) -> CalendarView {
        CalendarView { name: self.name@, url: self.url@ }
    }
}

impl DeepView for Calendar {
    type V = CalendarView;

    open spec fn deep_view(&self) -> CalendarView {
        self.view()
    }
}

impl Calendar {
    /// A field-by-field copy; the copy equals the original as a value.
    pub fn duplicate(&self) -> (r: Calendar)
        ensures
            r == *self,
    {
        Calendar { name: self.name.clone(), url: self.url.clone() }
    }
}

/// One property of a destination event: the value is never absent.
pub struct DestProperty {
    pub name: String,
    pub value: String,
}

/// Mathematical model of a destination property.
pub struct DestPropertyView {
    pub name: Seq<char>,
    pub value: Seq<char>,
}

impl View for DestProperty {
    type V = DestPropertyView;

    open spec fn view(&self) -> DestPropertyView {
        DestPropertyView { name: self.name@, value: self.value@ }
    }
}

impl DeepView for DestProperty {
    type V = DestPropertyView;

    open spec fn deep_view(&self) -> DestPropertyView {
        self.view()
    }
}

/// A nested child property group of a destination event.
pub struct DestChildGroup {
    pub name: String,
    pub properties: Vec<DestProperty>,
}

/// Mathematical model of a child property group.
pub struct DestChildGroupView {
    pub name: Seq<char>,
    pub properties: Seq<DestPropertyView>,
}

impl View for DestChildGroup {
    type V = DestChildGroupView;

    open spec fn view(&self) -> DestChildGroupView {
        DestChildGroupView { name: self.name@, properties: self.properties.deep_view() }
    }
}

impl DeepView for DestChildGroup {
    type V = DestChildGroupView;

    open spec fn deep_view(&self) -> DestChildGroupView {
        self.view()
    }
}

/// The record written to the destination calendar. An absent identity
/// reference means "create new"; a present one means "update the event at
/// that identity".
pub struct DestEvent {
    pub identity: Option<String>,
    pub calendar_url: String,
    pub title: String,
    pub properties: Vec<DestProperty>,
    pub children: Vec<DestChildGroup>,
}

/// Mathematical model of a destination event.
pub struct DestEventView {
    pub identity: Option<Seq<char>>,
    pub calendar_url: Seq<char>,
    pub title: Seq<char>,
    pub properties: Seq<DestPropertyView>,
    pub children: Seq<DestChildGroupView>,
}

impl View for DestEvent {
    type V = DestEventView;

    open spec fn view(&self) -> DestEventView {
        DestEventView {
            identity: self.identity.deep_view(),
            calendar_url: self.calendar_url@,
            title: self.title@,
            properties: self.properties.deep_view(),
            children: self.children.deep_view(),
        }
    }
}

} // verus!
