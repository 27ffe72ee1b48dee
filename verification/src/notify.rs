//! The notification dispatcher.
//!
//! For every message the dispatcher decides whether a notification is due
//! and what it shows. The avatar of the author serves as icon; it comes from
//! the cache where the cache has it under the address the author has now,
//! and is fetched otherwise. Fetching is the caller's part: the dispatcher
//! says what to fetch and is told what came back.

use crate::avatar::{
    avatar_view,
    get_avatar_url,
    get_remote_avatar,
    is_success,
    remote_avatar,
    response_view,
    thumbnail_of,
    AvatarData,
    AvatarResponse,
    AvatarView,
    ResponseView,
};
use crate::cache::AvatarCache;
use std::sync::Arc;
use vstd::prelude::*;

verus! {

/// An incoming message, as far as the dispatcher reads it.
pub struct MessageEvent {
    pub author_id: u64,
    pub author_display_name: String,
    pub author_avatar_url: Option<String>,
    pub content: String,
}

/// What a [`MessageEvent`] holds.
pub struct EventView {
    pub author_id: u64,
    pub author_display_name: Seq<char>,
    pub author_avatar_url: Option<Seq<char>>,
    pub content: Seq<char>,
}

impl View for MessageEvent {
    type V = EventView;

    open spec fn view(&self) -> EventView {
        EventView {
            author_id: self.author_id,
            author_display_name: self.author_display_name@,
            author_avatar_url: match self.author_avatar_url {
                Some(url) => Some(url@),
                None => None,
            },
            content: self.content@,
        }
    }
}

/// One call of the notification renderer.
pub struct Notification {
    pub summary: String,
    pub body: String,
    pub icon: Option<Arc<AvatarData>>,
}

/// What a [`Notification`] holds.
pub struct NotificationView {
    pub summary: Seq<char>,
    pub body: Seq<char>,
    pub icon: Option<AvatarView>,
}

impl View for Notification {
    type V = NotificationView;

    open spec fn view(&self) -> NotificationView {
        NotificationView { summary: self.summary@, body: self.body@, icon: avatar_view(self.icon) }
    }
}

/// The answer of the cache to the question for an avatar.
pub enum AvatarLookup {
    /// The user has no avatar.
    NoAvatar,
    /// The cache has the avatar under the address the user has now.
    Cached(Arc<AvatarData>),
    /// The avatar has to be fetched from this address.
    Fetch(String),
}

/// What an [`AvatarLookup`] holds.
pub enum LookupView {
    NoAvatar,
    Cached(AvatarView),
    Fetch(Seq<char>),
}

impl View for AvatarLookup {
    type V = LookupView;

    open spec fn view(&self) -> LookupView {
        match self {
            AvatarLookup::NoAvatar => LookupView::NoAvatar,
            AvatarLookup::Cached(record) => LookupView::Cached(record@),
            AvatarLookup::Fetch(url) => LookupView::Fetch(url@),
        }
    }
}

/// What is to be done about a message.
pub enum Dispatch {
    /// Nothing: the host wrote the message.
    Suppressed,
    /// Show this notification.
    Notify(Notification),
    /// Fetch the avatar from this address, then call
    /// [`DNotify::display_notification`] with what came back and show the
    /// notification that it builds.
    Fetch(String),
}

/// What a [`Dispatch`] holds.
pub enum DispatchView {
    Suppressed,
    Notify(NotificationView),
    Fetch(Seq<char>),
}

impl View for Dispatch {
    type V = DispatchView;

    open spec fn view(&self) -> DispatchView {
        match self {
            Dispatch::Suppressed => DispatchView::Suppressed,
            Dispatch::Notify(notification) => DispatchView::Notify(notification@),
            Dispatch::Fetch(url) => DispatchView::Fetch(url@),
        }
    }
}

/// The notification dispatcher.
pub struct DNotify {
    cached_avatars: AvatarCache,
    host_user_id: u64,
}

/// The state of a [`DNotify`]: the identity of the host, and the avatar kept
/// for each user.
pub struct DNotifyView {
    pub host_user_id: u64,
    pub avatars: Map<u64, AvatarView>,
}

impl View for DNotify {
    type V = DNotifyView;

    closed spec fn view(&self) -> DNotifyView {
        DNotifyView { host_user_id: self.host_user_id, avatars: self.cached_avatars@ }
    }
}

/// What the cache answers for `user`, whose avatar is offered under
/// `avatar_url`. A record counts only while it was fetched from the
/// thumbnail address that the user has now.
pub open spec fn lookup_avatar(
    avatars: Map<u64, AvatarView>,
    user: u64,
    avatar_url: Option<Seq<char>>,
) -> LookupView {
    match thumbnail_of(avatar_url) {
        None => LookupView::NoAvatar,
        Some(url) => if avatars.contains_key(user) && avatars[user].url == url {
            LookupView::Cached(avatars[user])
        } else {
            LookupView::Fetch(url)
        },
    }
}

/// The record that a fetch for the avatar of a user yields. `fetched` is
/// the response, or `None` where the fetch brought none.
pub open spec fn fetched_avatar(
    avatar_url: Option<Seq<char>>,
    fetched: Option<ResponseView>,
) -> Option<AvatarView> {
    match thumbnail_of(avatar_url) {
        Some(url) => remote_avatar(url, fetched),
        None => None,
    }
}

/// The cache after a fetch for the avatar of `user`: a record that came of
/// it takes the place of the one kept for `user`, and a fetch without a
/// record leaves the cache as it was.
pub open spec fn after_fetch(
    avatars: Map<u64, AvatarView>,
    user: u64,
    avatar_url: Option<Seq<char>>,
    fetched: Option<ResponseView>,
) -> Map<u64, AvatarView> {
    match fetched_avatar(avatar_url, fetched) {
        Some(record) => avatars.insert(user, record),
        None => avatars,
    }
}

/// The notification for a message: the display name of the author as
/// summary, the text of the message as body, and the icon given.
pub open spec fn notification_for(event: EventView, icon: Option<AvatarView>) -> NotificationView {
    NotificationView { summary: event.author_display_name, body: event.content, icon }
}

/// What is to be done about a message, given the host and the cache.
pub open spec fn dispatch_for(state: DNotifyView, event: EventView) -> DispatchView {
    if event.author_id == state.host_user_id {
        DispatchView::Suppressed
    } else {
        match lookup_avatar(state.avatars, event.author_id, event.author_avatar_url) {
            LookupView::NoAvatar => DispatchView::Notify(notification_for(event, None)),
            LookupView::Cached(record) => DispatchView::Notify(
                notification_for(event, Some(record)),
            ),
            LookupView::Fetch(url) => DispatchView::Fetch(url),
        }
    }
}

/// The avatar that resolving gives for `user`: none for a user without an
/// avatar, the cached record where the cache answers, and otherwise what
/// the fetch yields.
pub open spec fn resolved(
    avatars: Map<u64, AvatarView>,
    user: u64,
    avatar_url: Option<Seq<char>>,
    fetched: Option<ResponseView>,
) -> Option<AvatarView> {
    match lookup_avatar(avatars, user, avatar_url) {
        LookupView::NoAvatar => None,
        LookupView::Cached(record) => Some(record),
        LookupView::Fetch(_) => fetched_avatar(avatar_url, fetched),
    }
}

/// The cache after resolving: changed only where a fetch was made.
pub open spec fn after_resolve(
    avatars: Map<u64, AvatarView>,
    user: u64,
    avatar_url: Option<Seq<char>>,
    fetched: Option<ResponseView>,
) -> Map<u64, AvatarView> {
    match lookup_avatar(avatars, user, avatar_url) {
        LookupView::Fetch(_) => after_fetch(avatars, user, avatar_url, fetched),
        _ => avatars,
    }
}

/// Resolving twice under one address: once the first time has given an
/// avatar, the second time is answered from the cache, whatever a fetch
/// would bring, and gives the same avatar.
pub proof fn lemma_resolve_again_is_cached(
    avatars: Map<u64, AvatarView>,
    user: u64,
    avatar_url: Option<Seq<char>>,
    first_fetch: Option<ResponseView>,
    second_fetch: Option<ResponseView>,
)
    requires
        resolved(avatars, user, avatar_url, first_fetch) is Some,
    ensures
        !(lookup_avatar(
            after_resolve(avatars, user, avatar_url, first_fetch),
            user,
            avatar_url,
        ) is Fetch),
        resolved(
            after_resolve(avatars, user, avatar_url, first_fetch),
            user,
            avatar_url,
            second_fetch,
        ) == resolved(avatars, user, avatar_url, first_fetch),
{
}

/// Resolving after the address has changed: the record kept is of no use,
/// so the avatar is fetched. Once the fetch has given a record, that record
/// is the one kept for the user, no address brings the old one back, and
/// the records of other users are as they were.
pub proof fn lemma_changed_address_replaces(
    avatars: Map<u64, AvatarView>,
    user: u64,
    avatar_url: Option<Seq<char>>,
    fetched: Option<ResponseView>,
)
    requires
        avatars.contains_key(user),
        thumbnail_of(avatar_url) is Some,
        thumbnail_of(avatar_url) != Some(avatars[user].url),
    ensures
        lookup_avatar(avatars, user, avatar_url) == LookupView::Fetch(thumbnail_of(avatar_url)->0),
        resolved(avatars, user, avatar_url, fetched) == fetched_avatar(avatar_url, fetched),
        fetched_avatar(avatar_url, fetched) matches Some(record) ==> {
            let after = after_resolve(avatars, user, avatar_url, fetched);
            &&& after.contains_key(user)
            &&& after[user] == record
            &&& record.url == thumbnail_of(avatar_url)->0
            &&& forall|any_url: Option<Seq<char>>|
                lookup_avatar(after, user, any_url) != LookupView::Cached(avatars[user])
            &&& forall|other: u64|
                other != user ==> after.contains_key(other) == avatars.contains_key(other)
                    && after[other] == avatars[other]
        },
        fetched_avatar(avatar_url, fetched) is None ==> after_resolve(
            avatars,
            user,
            avatar_url,
            fetched,
        ) == avatars,
{
}

/// A fetch that brought no response, or a response that reports anything
/// but success, gives no avatar, whatever the body holds. The cache stays
/// as it was, so that the next question for the avatar leads to a fetch
/// again.
pub proof fn lemma_failed_fetch_gives_no_avatar(
    avatars: Map<u64, AvatarView>,
    user: u64,
    avatar_url: Option<Seq<char>>,
    fetched: Option<ResponseView>,
)
    requires
        fetched matches Some(response) ==> !is_success(response.status),
    ensures
        fetched_avatar(avatar_url, fetched) is None,
        after_fetch(avatars, user, avatar_url, fetched) == avatars,
        after_resolve(avatars, user, avatar_url, fetched) == avatars,
        lookup_avatar(avatars, user, avatar_url) is Fetch ==> resolved(
            avatars,
            user,
            avatar_url,
            fetched,
        ) is None,
{
}

/// The text of an optional address.
pub open spec fn url_view(avatar_url: Option<&str>) -> Option<Seq<char>> {
    match avatar_url {
        Some(url) => Some(url@),
        None => None,
    }
}

fn avatar_url_of(event: &MessageEvent) -> (url: Option<&str>)
    ensures
        match url {
            Some(text) => event@.author_avatar_url == Some(text@),
            None => event@.author_avatar_url is None,
        },
{
    match &event.author_avatar_url {
        Some(url) => Some(url.as_str()),
        None => None,
    }
}

fn notification(event: &MessageEvent, icon: Option<Arc<AvatarData>>) -> (built: Notification)
    ensures
        built@ == notification_for(event@, avatar_view(icon)),
{
    Notification {
        summary: event.author_display_name.clone(),
        body: event.content.clone(),
        icon,
    }
}

impl DNotify {
    /// A dispatcher for the host `host_user_id`, with an empty cache.
    pub fn new(host_user_id: u64) -> (dispatcher: DNotify)
        ensures
            dispatcher@ == (DNotifyView { host_user_id, avatars: Map::empty() }),
    {
        DNotify { cached_avatars: AvatarCache::new(), host_user_id }
    }

    /// The identity of the host.
    pub fn host_user_id(&self) -> (host: u64)
        ensures
            host == self@.host_user_id,
    {
        self.host_user_id
    }

    /// Asks the cache for the avatar of `user`, which the platform offers
    /// under `avatar_url`. This is the first half of resolving an avatar:
    /// the answer is the record kept, or the address to fetch, or that the
    /// user has no avatar. The cache is not changed.
    pub fn get_avatar(&self, user: u64, avatar_url: Option<&str>) -> (found: AvatarLookup)
        ensures
            found@ == lookup_avatar(self@.avatars, user, url_view(avatar_url)),
            avatar_url is None ==> found is NoAvatar,
    {
        let url = match get_avatar_url(avatar_url) {
            Some(url) => url,
            None => return AvatarLookup::NoAvatar,
        };
        match self.cached_avatars.get(user) {
            Some(record) => if record.fetched_from(&url) {
                AvatarLookup::Cached(record)
            } else {
                AvatarLookup::Fetch(url)
            },
            None => AvatarLookup::Fetch(url),
        }
    }

    /// Takes in the outcome of the fetch that [`Self::get_avatar`] asked
    /// for. This is the second half of resolving an avatar. `fetched` is
    /// the response, or `None` where the fetch brought none. A record that
    /// comes of it is returned and takes the place of whatever was kept
    /// for `user`, so that the next question under the same address is
    /// answered from the cache with that record. Where no record comes of
    /// it, the cache stays as it was, and the next question leads to a
    /// fetch again. The records of other users are never touched.
    pub fn resolve_fetched(
        &mut self,
        user: u64,
        avatar_url: Option<&str>,
        fetched: Option<&AvatarResponse>,
    ) -> (avatar: Option<Arc<AvatarData>>)
        ensures
            final(self)@.host_user_id == old(self)@.host_user_id,
            avatar_view(avatar) == fetched_avatar(url_view(avatar_url), response_view(fetched)),
            final(self)@.avatars == after_fetch(
                old(self)@.avatars,
                user,
                url_view(avatar_url),
                response_view(fetched),
            ),
            avatar is None ==> final(self)@.avatars == old(self)@.avatars,
            avatar matches Some(record) ==> final(self)@.avatars == old(self)@.avatars.insert(
                user,
                record@,
            ) && lookup_avatar(final(self)@.avatars, user, url_view(avatar_url))
                == LookupView::Cached(record@),
    {
        let avatar = match get_avatar_url(avatar_url) {
            Some(url) => get_remote_avatar(url, fetched),
            None => None,
        };
        match &avatar {
            Some(record) => {
                self.cached_avatars.insert(user, record);
            },
            None => {},
        }
        avatar
    }

    /// Decides what is to be done about a message. A message of the host
    /// is passed over. For any other message either the notification is
    /// ready, or the avatar of its author has to be fetched first.
    pub fn message(&self, event: &MessageEvent) -> (dispatch: Dispatch)
        ensures
            dispatch@ == dispatch_for(self@, event@),
            event.author_id == self@.host_user_id ==> dispatch is Suppressed,
            event.author_id != self@.host_user_id && event.author_avatar_url is None
                ==> dispatch@ == DispatchView::Notify(notification_for(event@, None)),
    {
        if event.author_id == self.host_user_id {
            return Dispatch::Suppressed;
        }
        match self.get_avatar(event.author_id, avatar_url_of(event)) {
            AvatarLookup::NoAvatar => Dispatch::Notify(notification(event, None)),
            AvatarLookup::Cached(record) => Dispatch::Notify(notification(event, Some(record))),
            AvatarLookup::Fetch(url) => Dispatch::Fetch(url),
        }
    }

    /// Builds the notification for a message once the fetch for the
    /// avatar of its author has ended. `fetched` is the response, or `None`
    /// where the fetch brought none. An avatar that came of the fetch is
    /// kept in the cache and serves as icon. Where none came, the cache
    /// stays as it was and the notification has no icon. For a message of
    /// the host there is no notification, and the cache stays as it was.
    pub fn display_notification(
        &mut self,
        event: &MessageEvent,
        fetched: Option<&AvatarResponse>,
    ) -> (built: Option<Notification>)
        ensures
            final(self)@.host_user_id == old(self)@.host_user_id,
            event.author_id == old(self)@.host_user_id ==> built is None && final(self)@
                == old(self)@,
            event.author_id != old(self)@.host_user_id ==> built is Some && built->0@
                == notification_for(
                event@,
                fetched_avatar(event@.author_avatar_url, response_view(fetched)),
            ) && final(self)@.avatars == after_fetch(
                old(self)@.avatars,
                event.author_id,
                event@.author_avatar_url,
                response_view(fetched),
            ),
    {
        if event.author_id == self.host_user_id {
            return None;
        }
        let icon = self.resolve_fetched(event.author_id, avatar_url_of(event), fetched);
        Some(notification(event, icon))
    }
}

} // verus!
