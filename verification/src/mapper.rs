//! The event mapper: a pure, order-preserving transform from one source
//! event's property sequence to a destination-compatible property sequence.
//!
//! Every property name is copied verbatim, in its source position; a present
//! value is copied, an absent one becomes an explicit empty value, because
//! the destination format does not tolerate absent values. The destination
//! event carries a fixed, non-empty placeholder title and an absent identity
//! reference, so persisting it always creates a new event.

use vstd::prelude::*;

use crate::model::{
    Calendar, CalendarView, DestEvent, DestEventView, DestProperty, DestPropertyView, SourceEvent,
    SourcePropertyView,
};

verus! {

/// A present value is kept; an absent one becomes the empty value.
pub open spec fn normalized_value(v: Option<Seq<char>>) -> Seq<char> {
    match v {
        Option::Some(s) => s,
        Option::None => Seq::empty(),
    }
}

/// How one source property maps: the name verbatim, the value normalized.
pub open spec fn mapped_property(p: SourcePropertyView) -> DestPropertyView {
    DestPropertyView { name: p.name, value: normalized_value(p.value) }
}

/// How a whole property sequence maps: position by position.
pub open spec fn mapped_properties(ps: Seq<SourcePropertyView>) -> Seq<DestPropertyView> {
    ps.map_values(|p: SourcePropertyView| mapped_property(p))
}

/// The fixed placeholder title every mapped event carries.
pub open spec fn placeholder_title() -> Seq<char> {
    "Test??"@
}

/// The destination record mapped from one source event, addressed to the
/// given calendar: no identity reference, the placeholder title, the mapped
/// property sequence, and no child groups.
pub open spec fn mapped_event(cal: CalendarView, ev: Seq<SourcePropertyView>) -> DestEventView {
    DestEventView {
        identity: Option::None,
        calendar_url: cal.url,
        title: placeholder_title(),
        properties: mapped_properties(ev),
        children: Seq::empty(),
    }
}

/// Maps one source event's properties to destination properties, keeping
/// order and names and normalizing absent values.
pub fn map_properties(props: &Vec<crate::model::SourceProperty>) -> (r: Vec<DestProperty>)
    ensures
        r.deep_view() == mapped_properties(props.deep_view()),
{
    let mut r: Vec<DestProperty> = Vec::new();
    let n = props.len();
    for i in 0..n
        invariant
            n == props.len(),
            r.deep_view() =~= mapped_properties(props.deep_view().take(i as int)),
    {
        let p = &props[i];
        let value = match &p.value {
            Option::Some(v) => v.clone(),
            Option::None => String::new(),
        };
        r.push(DestProperty { name: p.name.clone(), value });
        proof {
            let dv = props.deep_view();
            assert(dv.take(i + 1) =~= dv.take(i as int).push(dv[i as int]));
            assert(r@.last()@ == mapped_property(dv[i as int]));
            assert(mapped_properties(dv.take(i as int).push(dv[i as int])) =~= mapped_properties(
                dv.take(i as int),
            ).push(mapped_property(dv[i as int])));
            assert(r.deep_view() =~= mapped_properties(dv.take(i + 1)));
        }
    }
    proof {
        assert(props.deep_view().take(n as int) =~= props.deep_view());
    }
    r
}

/// Maps one source event to the destination record for the given calendar.
pub fn map_event(src: &SourceEvent, calendar: &Calendar) -> (d: DestEvent)
    ensures
        d@ == mapped_event(calendar@, src@),
{
    let d = DestEvent {
        identity: Option::None,
        calendar_url: calendar.url.clone(),
        title: "Test??".to_string(),
        properties: map_properties(&src.properties),
        children: Vec::new(),
    };
    proof {
        assert(d@.children =~= Seq::<crate::model::DestChildGroupView>::empty());
        assert(d@ == mapped_event(calendar@, src@));
    }
    d
}

/// The mapped property sequence has exactly as many pairs as the source,
/// every name verbatim in its source position, and the whole name sequence
/// therefore unchanged: the transform is stable and order-preserving.
pub proof fn lemma_mapping_preserves_order_and_names(ps: Seq<SourcePropertyView>)
    ensures
        mapped_properties(ps).len() == ps.len(),
        forall|i: int|
            0 <= i < ps.len() ==> #[trigger] mapped_properties(ps)[i].name == ps[i].name,
        mapped_properties(ps).map_values(|q: DestPropertyView| q.name) =~= ps.map_values(
            |p: SourcePropertyView| p.name,
        ),
{
}

/// Every property whose value is absent in the source carries the explicit
/// empty value after mapping, and one whose value is present keeps it: no
/// destination property has an absent value.
pub proof fn lemma_absent_values_normalized(ps: Seq<SourcePropertyView>)
    ensures
        forall|i: int|
            0 <= i < ps.len() && ps[i].value is None ==> #[trigger] mapped_properties(
                ps,
            )[i].value == Seq::<char>::empty(),
        forall|i: int|
            0 <= i < ps.len() && ps[i].value is Some ==> #[trigger] mapped_properties(
                ps,
            )[i].value == ps[i].value->0,
{
}

} // verus!
