//! Listing the guilds of a bot page by page, with a bounded number of
//! retries over the whole listing.
//!
//! The state machine decides which page to ask for, when to pause and when
//! to give up; the program that drives it talks to the chat platform.

use vstd::prelude::*;

verus! {

/// The largest number of guilds asked for in one page.
pub const GUILD_PAGE_LIMIT: u64 = 100;

/// How many failed requests end the listing.
pub const GUILD_RETRY_BUDGET: u8 = 3;

/// How many seconds pass after a failed request.
pub const GUILD_RETRY_DELAY_SECS: u64 = 3;

/// What the listing reads of a guild.
#[derive(Debug, Clone, PartialEq, Eq)]
pub struct Guild {
    pub id: u64,
    pub name: String,
}

/// Where a listing stands.
#[derive(Debug, Clone, Copy, PartialEq, Eq, Structural)]
pub enum ListingPhase {
    /// A page has been asked for.
    Fetching,
    /// The pause after a failed request is under way.
    Pausing,
    /// The listing has ended, with the guilds or without.
    Finished,
}

/// The state of a listing.
#[derive(Debug, PartialEq, Eq)]
pub struct GuildListing {
    pub phase: ListingPhase,
    /// The guilds of the pages read so far, in order.
    pub guilds: Vec<Guild>,
    /// Failed requests that the listing can still take.
    pub retries_left: u8,
    /// The guild after which the next page begins; `None` for the first.
    pub after: Option<u64>,
}

/// What the driver reports back.
#[derive(Debug, PartialEq, Eq)]
pub enum ListingEvent {
    /// A page arrived.
    Page(Vec<Guild>),
    /// The request failed.
    Failed,
    /// The pause has ended.
    Elapsed,
}

/// What the driver is to do next.
#[derive(Debug, PartialEq, Eq)]
pub enum ListingAction {
    /// Ask for the page of at most `limit` guilds after the guild `after`.
    Fetch { after: Option<u64>, limit: u64 },
    /// Sleep for so many seconds.
    Sleep(u64),
    /// The listing is complete: these are the guilds.
    Done(Vec<Guild>),
    /// The listing failed: hand on the error of the last request.
    GiveUp,
    /// Nothing: the event was not awaited.
    Nothing,
}

/// What the state of a listing holds.
pub struct ListingView {
    pub phase: ListingPhase,
    pub guilds: Seq<Guild>,
    pub retries_left: u8,
    pub after: Option<u64>,
}

/// What an event holds.
pub enum ListingEventView {
    Page(Seq<Guild>),
    Failed,
    Elapsed,
}

/// What an action holds.
pub enum ListingActionView {
    Fetch { after: Option<u64>, limit: u64 },
    Sleep(u64),
    Done(Seq<Guild>),
    GiveUp,
    Nothing,
}

impl View for GuildListing {
    type V = ListingView;

    open spec fn view(&self) -> ListingView {
        ListingView {
            phase: self.phase,
            guilds: self.guilds@,
            retries_left: self.retries_left,
            after: self.after,
        }
    }
}

impl View for ListingEvent {
    type V = ListingEventView;

    open spec fn view(&self) -> ListingEventView {
        match self {
            ListingEvent::Page(page) => ListingEventView::Page(page@),
            ListingEvent::Failed => ListingEventView::Failed,
            ListingEvent::Elapsed => ListingEventView::Elapsed,
        }
    }
}

impl View for ListingAction {
    type V = ListingActionView;

    open spec fn view(&self) -> ListingActionView {
        match self {
            ListingAction::Fetch { after, limit } => ListingActionView::Fetch {
                after: *after,
                limit: *limit,
            },
            ListingAction::Sleep(secs) => ListingActionView::Sleep(*secs),
            ListingAction::Done(guilds) => ListingActionView::Done(guilds@),
            ListingAction::GiveUp => ListingActionView::GiveUp,
            ListingAction::Nothing => ListingActionView::Nothing,
        }
    }
}

/// A listing that has ended.
pub open spec fn spec_finished() -> ListingView {
    ListingView {
        phase: ListingPhase::Finished,
        guilds: Seq::<Guild>::empty(),
        retries_left: 0,
        after: None,
    }
}

/// A listing at its start, and its first request.
pub open spec fn spec_listing_start() -> (ListingView, ListingActionView) {
    (
        ListingView {
            phase: ListingPhase::Fetching,
            guilds: Seq::<Guild>::empty(),
            retries_left: GUILD_RETRY_BUDGET,
            after: None,
        },
        ListingActionView::Fetch { after: None, limit: GUILD_PAGE_LIMIT },
    )
}

/// One step of a listing.
///
/// A full page is kept and the page after its last guild is asked for; a page
/// that is not full ends the listing with all guilds read. A failed request
/// is followed by a pause; after the pause one retry is used up, and the
/// same page is asked for again unless none is left.
pub open spec fn spec_listing_step(s: ListingView, event: ListingEventView) -> (
    ListingView,
    ListingActionView,
) {
    match (s.phase, event) {
        (ListingPhase::Fetching, ListingEventView::Page(page)) => {
            let all = s.guilds + page;
            if page.len() >= GUILD_PAGE_LIMIT {
                (
                    ListingView { guilds: all, after: Some(all.last().id), ..s },
                    ListingActionView::Fetch { after: Some(all.last().id), limit: GUILD_PAGE_LIMIT },
                )
            } else {
                (spec_finished(), ListingActionView::Done(all))
            }
        },
        (ListingPhase::Fetching, ListingEventView::Failed) => (
            ListingView { phase: ListingPhase::Pausing, ..s },
            ListingActionView::Sleep(GUILD_RETRY_DELAY_SECS),
        ),
        (ListingPhase::Pausing, ListingEventView::Elapsed) => {
            if s.retries_left <= 1 {
                (spec_finished(), ListingActionView::GiveUp)
            } else {
                (
                    ListingView {
                        phase: ListingPhase::Fetching,
                        retries_left: (s.retries_left - 1) as u8,
                        ..s
                    },
                    ListingActionView::Fetch { after: s.after, limit: GUILD_PAGE_LIMIT },
                )
            }
        },
        _ => (s, ListingActionView::Nothing),
    }
}

impl GuildListing {
    /// Begins a listing: the first page is asked for.
    pub fn start() -> (r: (GuildListing, ListingAction))
        ensures
            (r.0@, r.1@) == spec_listing_start(),
    {
        (
            GuildListing {
                phase: ListingPhase::Fetching,
                guilds: Vec::new(),
                retries_left: GUILD_RETRY_BUDGET,
                after: None,
            },
            ListingAction::Fetch { after: None, limit: GUILD_PAGE_LIMIT },
        )
    }

    /// Takes one event and says what to do next.
    pub fn step(self, event: ListingEvent) -> (r: (GuildListing, ListingAction))
        ensures
            (r.0@, r.1@) == spec_listing_step(self@, event@),
    {
        let finished = GuildListing {
            phase: ListingPhase::Finished,
            guilds: Vec::new(),
            retries_left: 0,
            after: None,
        };
        match (self.phase, event) {
            (ListingPhase::Fetching, ListingEvent::Page(page)) => {
                let mut page = page;
                let full = page.len() >= 100;
                let mut all = self.guilds;
                all.append(&mut page);
                if full {
                    let last_id = all[all.len() - 1].id;
                    (
                        GuildListing {
                            phase: self.phase,
                            guilds: all,
                            retries_left: self.retries_left,
                            after: Some(last_id),
                        },
                        ListingAction::Fetch { after: Some(last_id), limit: GUILD_PAGE_LIMIT },
                    )
                } else {
                    (finished, ListingAction::Done(all))
                }
            },
            (ListingPhase::Fetching, ListingEvent::Failed) => (
                GuildListing {
                    phase: ListingPhase::Pausing,
                    guilds: self.guilds,
                    retries_left: self.retries_left,
                    after: self.after,
                },
                ListingAction::Sleep(GUILD_RETRY_DELAY_SECS),
            ),
            (ListingPhase::Pausing, ListingEvent::Elapsed) => {
                if self.retries_left <= 1 {
                    (finished, ListingAction::GiveUp)
                } else {
                    let after = self.after;
                    (
                        GuildListing {
                            phase: ListingPhase::Fetching,
                            guilds: self.guilds,
                            retries_left: self.retries_left - 1,
                            after,
                        },
                        ListingAction::Fetch { after, limit: GUILD_PAGE_LIMIT },
                    )
                }
            },
            (_, _) => (self, ListingAction::Nothing),
        }
    }
}

/// Three failed requests in a row end a listing: each is followed by a pause
/// of three seconds, the first two by another request for the first page.
pub proof fn lemma_listing_gives_up()
    ensures
        ({
            let start = spec_listing_start();
            let s1 = spec_listing_step(start.0, ListingEventView::Failed);
            let s2 = spec_listing_step(s1.0, ListingEventView::Elapsed);
            let s3 = spec_listing_step(s2.0, ListingEventView::Failed);
            let s4 = spec_listing_step(s3.0, ListingEventView::Elapsed);
            let s5 = spec_listing_step(s4.0, ListingEventView::Failed);
            let s6 = spec_listing_step(s5.0, ListingEventView::Elapsed);
            &&& s1.1 == ListingActionView::Sleep(3)
            &&& s2.1 == ListingActionView::Fetch { after: None, limit: 100 }
            &&& s3.1 == ListingActionView::Sleep(3)
            &&& s4.1 == start.1
            &&& s5.1 == ListingActionView::Sleep(3)
            &&& s6.1 == ListingActionView::GiveUp
            &&& s6.0.phase == ListingPhase::Finished
        }),
{
}

/// A page that is not full ends the listing with every guild read so far and
/// the guilds of that page after them.
pub proof fn lemma_short_page_ends_listing(s: ListingView, page: Seq<Guild>)
    requires
        s.phase == ListingPhase::Fetching,
        page.len() < GUILD_PAGE_LIMIT,
    ensures
        spec_listing_step(s, ListingEventView::Page(page)).1 == ListingActionView::Done(
            s.guilds + page,
        ),
        spec_listing_step(s, ListingEventView::Page(page)).0.phase == ListingPhase::Finished,
{
}

} // verus!
