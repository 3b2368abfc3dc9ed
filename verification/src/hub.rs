//! The change notification hook and the subscriber registry.
//!
//! After a successful create, patch or delete, the gateway builds an event —
//! the item's domain, an event type, and the item itself — and hands it to a
//! listener.  Notification is fire-and-forget: whatever the listener returns,
//! the triggering operation's own outcome stands.  The registry stores the
//! endpoints a dispatcher would deliver to, as records of the `hub`
//! collection.

use vstd::prelude::*;

use crate::error::ErrorKind;
use crate::error::PlatypusError;
use crate::ids::fresh_token;
use vstd::string::StringExecFns;
use crate::item::DomainItem;
use crate::item::view_opt;
use crate::persist::EnvModel;
use crate::persist::KeyModel;
use crate::persist::Persistence;
use crate::persist::create_outcome_owed;
use crate::persist::create_post;
use crate::persist::delete_post;
use crate::persist::has_key;
use crate::persist::patch_post;
use crate::persist::with_stamp;

verus! {

/// The kind of change an event reports.
#[derive(Clone, Copy, Debug, PartialEq, Eq, Structural)]
pub enum EventType {
    /// A record was created.
    Create,
    /// A record's attributes changed.
    Update,
    /// A record was deleted.
    Delete,
    /// A record's status changed.
    StateChange,
}

/// A change notification: the item's domain, what happened, and the item.
pub struct Event {
    /// The domain the item belongs to: its class.
    pub domain: String,
    /// What happened to the item.
    pub event_type: EventType,
    /// The item the event reports on.
    pub item: DomainItem,
}

/// Builds the event reporting `event_type` on `item`.
pub fn to_event(item: &DomainItem, event_type: EventType) -> (r: Event)
    requires
        item.wf(),
    ensures
        r.item.wf(),
        r.item@ == item@,
        r.domain@ == item@.class,
        r.event_type == event_type,
{
    Event { domain: item.class.clone(), event_type, item: item.clone() }
}

/// The event type a patch gives rise to: a patch that sets a `status` field
/// reports a status change, any other an attribute change.
pub fn event_type_for_patch(patch: &DomainItem) -> (r: EventType)
    requires
        patch.wf(),
    ensures
        r == if patch@.fields.contains_key("status"@) {
            EventType::StateChange
        } else {
            EventType::Update
        },
{
    match patch.get_field("status") {
        Some(_) => EventType::StateChange,
        None => EventType::Update,
    }
}

/// What consumes change notifications: an external dispatcher, behind this
/// interface.  Nothing is assumed of `notify`: the gateway's operations
/// promise the same outcome whatever it does or returns.
pub trait NotificationListener {
    /// Takes one event; delivery is the listener's own affair.
    fn notify(&mut self, event: &Event) -> Result<(), PlatypusError>;
}

/// The default listener: it swallows every event.
pub struct NullListener {}

impl NotificationListener for NullListener {
    fn notify(&mut self, event: &Event) -> Result<(), PlatypusError> {
        Ok(())
    }
}

/// Creates an item and then notifies the listener of the creation.  The
/// contract is the creation's own: the notification's outcome never reaches
/// the caller.
pub fn create_notifying<L: NotificationListener>(
    persist: &mut Persistence,
    listener: &mut L,
    item: DomainItem,
) -> (r: Result<Vec<DomainItem>, PlatypusError>)
    requires
        old(persist).wf(),
        item.wf(),
    ensures
        final(persist).wf(),
        create_post(old(persist).db@, item@, final(persist).db@, r),
        create_outcome_owed(old(persist).db@, item@, r),
{
    let r = persist.create_tmf_item(item);
    match &r {
        Ok(v) => {
            if v.len() > 0 {
                let ev = to_event(&v[0], EventType::Create);
                let _ = listener.notify(&ev);
            }
        },
        Err(_) => {},
    }
    r
}

/// Patches an item and then notifies the listener: a status change when the
/// patch set a `status` field, an attribute change otherwise.  The contract
/// is the patch's own: the notification's outcome never reaches the caller.
pub fn patch_notifying<L: NotificationListener>(
    persist: &mut Persistence,
    listener: &mut L,
    class: &str,
    id: &str,
    patch: DomainItem,
) -> (r: Result<Vec<DomainItem>, PlatypusError>)
    requires
        old(persist).wf(),
        patch.wf(),
    ensures
        final(persist).wf(),
        patch_post(old(persist).db@, class@, id@, patch@, final(persist).db@, r),
        r is Ok <==> has_key(old(persist).db@, KeyModel { class: class@, id: id@ }),
{
    let event_type = event_type_for_patch(&patch);
    let r = persist.patch_tmf_item(class, id, patch);
    match &r {
        Ok(v) => {
            if v.len() > 0 {
                let ev = to_event(&v[0], event_type);
                let _ = listener.notify(&ev);
            }
        },
        Err(_) => {},
    }
    r
}

/// Deletes an item and then notifies the listener of the deletion, built
/// from the removed item.  The contract is the deletion's own: the
/// notification's outcome never reaches the caller.
pub fn delete_notifying<L: NotificationListener>(
    persist: &mut Persistence,
    listener: &mut L,
    class: &str,
    id: &str,
) -> (r: Result<DomainItem, PlatypusError>)
    requires
        old(persist).wf(),
    ensures
        final(persist).wf(),
        delete_post(old(persist).db@, class@, id@, final(persist).db@, r, "Issue Deleting object"@),
        r is Ok <==> has_key(old(persist).db@, KeyModel { class: class@, id: id@ }),
{
    let r = persist.delete_tmf_item(class, id);
    match &r {
        Ok(it) => {
            let ev = to_event(it, EventType::Delete);
            let _ = listener.notify(&ev);
        },
        Err(_) => {},
    }
    r
}

/// A webhook subscriber: where to deliver, and what to deliver.
pub struct NotificationEndpoint {
    /// The registry identifier, assigned on registration if absent.
    pub id: Option<String>,
    /// The domain whose events the subscriber wants.
    pub domain: String,
    /// An optional filter on the events.
    pub filter: Option<String>,
    /// The callback URI events are delivered to.
    pub callback: String,
    /// An optional query refining the subscription.
    pub query: Option<String>,
}

/// The fields under which an endpoint is stored.
pub open spec fn endpoint_fields_spec(
    domain: Seq<char>,
    filter: Option<Seq<char>>,
    callback: Seq<char>,
    query: Option<Seq<char>>,
) -> Map<Seq<char>, Seq<char>> {
    let m = Map::<Seq<char>, Seq<char>>::empty().insert("domain"@, domain).insert(
        "callback"@,
        callback,
    );
    let m2 = match filter {
        Some(f) => m.insert("filter"@, f),
        None => m,
    };
    match query {
        Some(q) => m2.insert("query"@, q),
        None => m2,
    }
}

/// The view of an endpoint, for contracts.
pub open spec fn endpoint_view(e: NotificationEndpoint) -> (
    Option<Seq<char>>,
    Seq<char>,
    Option<Seq<char>>,
    Seq<char>,
    Option<Seq<char>>,
) {
    (view_opt(e.id), e.domain@, view_opt(e.filter), e.callback@, view_opt(e.query))
}

/// Assigns a registry identifier to an endpoint that arrived without one: a
/// fresh random token.  A caller-supplied identifier is honoured.
pub fn ensure_endpoint_id(endpoint: &mut NotificationEndpoint)
    ensures
        match old(endpoint).id {
            Some(i) => final(endpoint).id == Some(i),
            None => (final(endpoint).id matches Some(t) && t@.len() == 36),
        },
        final(endpoint).id is Some,
        final(endpoint).domain == old(endpoint).domain,
        final(endpoint).filter == old(endpoint).filter,
        final(endpoint).callback == old(endpoint).callback,
        final(endpoint).query == old(endpoint).query,
{
    if endpoint.id.is_none() {
        endpoint.id = Some(fresh_token());
    }
}

/// Turns an endpoint into the domain item stored for it, of class `hub`.
pub fn endpoint_item(endpoint: &NotificationEndpoint) -> (r: DomainItem)
    ensures
        r.wf(),
        r@.class == "hub"@,
        r@.id == view_opt(endpoint.id),
        r@.href is None,
        r@.last_update is None,
        r@.fields == endpoint_fields_spec(
            endpoint.domain@,
            view_opt(endpoint.filter),
            endpoint.callback@,
            view_opt(endpoint.query),
        ),
{
    let mut item = DomainItem::new("hub".to_owned());
    item.id = crate::item::clone_opt(&endpoint.id);
    item.set_field("domain".to_owned(), endpoint.domain.clone());
    item.set_field("callback".to_owned(), endpoint.callback.clone());
    match &endpoint.filter {
        Some(f) => item.set_field("filter".to_owned(), f.clone()),
        None => {},
    }
    match &endpoint.query {
        Some(q) => item.set_field("query".to_owned(), q.clone()),
        None => {},
    }
    item
}

/// The subscriber registry: registration and removal of endpoints.
pub struct HubManagement {
    /// The gateway the registry stores endpoints through.
    pub persist: Option<Persistence>,
}

impl HubManagement {
    /// A registry without a gateway yet; one is handed in before use.
    pub fn new(persist: Option<Persistence>) -> (r: HubManagement)
        ensures
            r.persist == persist,
    {
        HubManagement { persist }
    }

    /// Hands the registry its gateway.
    pub fn persist(&mut self, persist: Persistence)
        ensures
            final(self).persist == Some(persist),
    {
        self.persist = Some(persist);
    }

    /// Registers an endpoint: it is stored as a record of the `hub`
    /// collection under its identifier, and handed back.  A taken identifier
    /// is a conflict.
    pub fn register_hub(&mut self, hub: NotificationEndpoint) -> (r: Result<
        NotificationEndpoint,
        PlatypusError,
    >)
        requires
            old(self).persist matches Some(p) && p.wf(),
            hub.id matches Some(i) && i@.len() > 0,
        ensures
            final(self).persist matches Some(p2) && p2.wf(),
            match r {
                Ok(ep) => {
                    &&& endpoint_view(ep) == endpoint_view(hub)
                    &&& !has_key(
                        old(self).persist->0.db@,
                        KeyModel { class: "hub"@, id: view_opt(hub.id)->0 },
                    )
                    &&& final(self).persist->0.db@ == old(self).persist->0.db@.push(
                        EnvModel {
                            key: KeyModel { class: "hub"@, id: view_opt(hub.id)->0 },
                            item: stored_endpoint_model(hub),
                        },
                    )
                },
                Err(e) => {
                    &&& final(self).persist->0.db@ == old(self).persist->0.db@
                    &&& e.kind == ErrorKind::Conflict
                    &&& has_key(
                        old(self).persist->0.db@,
                        KeyModel { class: "hub"@, id: view_opt(hub.id)->0 },
                    )
                },
            },
            r is Ok <==> !has_key(
                old(self).persist->0.db@,
                KeyModel { class: "hub"@, id: view_opt(hub.id)->0 },
            ),
    {
        let item = endpoint_item(&hub);
        match &mut self.persist {
            Some(p) => match p.create_hub_item(item) {
                Ok(_) => Ok(hub),
                Err(e) => Err(e),
            },
            None => Err(PlatypusError::from("Persistence not available")),
        }
    }

    /// Removes an endpoint from the registry by its identifier.  An unknown
    /// identifier is reported as not-found.
    pub fn unregister_hub(&mut self, hub_id: &str) -> (r: Result<DomainItem, PlatypusError>)
        requires
            old(self).persist matches Some(p) && p.wf(),
        ensures
            final(self).persist matches Some(p2) && p2.wf(),
            delete_post(
                old(self).persist->0.db@,
                "hub"@,
                hub_id@,
                final(self).persist->0.db@,
                r,
                "Could not delet hub entry"@,
            ),
            r is Ok <==> has_key(
                old(self).persist->0.db@,
                KeyModel { class: "hub"@, id: hub_id@ },
            ),
    {
        match &mut self.persist {
            Some(p) => p.delete_hub_item(hub_id),
            None => Err(PlatypusError::from("Persistence not available")),
        }
    }
}

/// Renders a registration outcome: the created endpoint is served under its
/// registry location, a failure as a conflict.
pub fn render_register_hub(output: &Result<NotificationEndpoint, PlatypusError>) -> (r: (
    u16,
    Option<String>,
))
    requires
        output matches Ok(ep) ==> ep.id is Some,
    ensures
        match output {
            Ok(ep) => r.0 == 201 && (r.1 matches Some(l) && l@ == "/tmf-api/hub/"@ + view_opt(
                ep.id,
            )->0),
            Err(_) => r.0 == 409 && r.1 is None,
        },
{
    match output {
        Ok(ep) => {
            let mut location = String::from_str("/tmf-api/hub/");
            match &ep.id {
                Some(i) => location.append(i.as_str()),
                None => {},
            }
            (201, Some(location))
        },
        Err(_) => (409, None),
    }
}

/// Renders a removal outcome: success has no content, a failure is
/// not-found.
pub fn render_delete_hub(output: &Result<DomainItem, PlatypusError>) -> (r: u16)
    ensures
        r == 204 <==> output is Ok,
        output is Err ==> r == 404,
{
    match output {
        Ok(_) => 204,
        Err(_) => 404,
    }
}

/// The item stored for an endpoint, as a model.
pub open spec fn stored_endpoint_model(hub: NotificationEndpoint) -> crate::item::ItemModel {
    crate::item::ItemModel {
        class: "hub"@,
        id: view_opt(hub.id),
        href: None,
        last_update: None,
        fields: endpoint_fields_spec(
            hub.domain@,
            view_opt(hub.filter),
            hub.callback@,
            view_opt(hub.query),
        ),
    }
}

} // verus!
