use vstd::prelude::*;

verus! {

/// A single push-notification request as accepted at intake: the target
/// device token, the payload text, and how many seconds must pass between
/// dispatch and delivery. No field is validated.
pub struct NotificationRequest {
    pub fcm_token: String,
    pub message: String,
    pub delay: u64,
}

/// Mathematical image of a `NotificationRequest`.
pub ghost struct RequestModel {
    pub fcm_token: Seq<char>,
    pub message: Seq<char>,
    pub delay: u64,
}

impl View for NotificationRequest {
    type V = RequestModel;

    open spec fn view(&self) -> RequestModel {
        RequestModel { fcm_token: self.fcm_token@, message: self.message@, delay: self.delay }
    }
}

/// One entry of the pending store: a request paired with the identifier
/// that intake assigned to it. An entry is owned by the store from intake
/// until a drain tick removes it; after that it lives on only inside the
/// dispatch task spawned for it and is never stored again.
pub struct PendingEntry {
    pub request: NotificationRequest,
    pub id: u128,
}

/// Mathematical image of a `PendingEntry`.
pub ghost struct EntryModel {
    pub request: RequestModel,
    pub id: u128,
}

impl View for PendingEntry {
    type V = EntryModel;

    open spec fn view(&self) -> EntryModel {
        EntryModel { request: self.request@, id: self.id }
    }
}

/// The images of a sequence of requests, in order.
pub open spec fn request_models(s: Seq<NotificationRequest>) -> Seq<RequestModel> {
    s.map(|i: int, r: NotificationRequest| r@)
}

/// The images of a sequence of entries, in order.
pub open spec fn entry_models(s: Seq<PendingEntry>) -> Seq<EntryModel> {
    s.map(|i: int, e: PendingEntry| e@)
}

} // verus!
