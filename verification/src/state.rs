//! What the bot knows for its whole life: how to reach the daemon, and who
//! may use it.

use std::collections::HashSet;
use std::sync::Arc;
use vstd::prelude::*;
use crate::config::{Configuration, ConfigurationError};
use crate::number::{parse_decimal_i64, parse_i64};
use crate::text::{split, split_chars, views};
use crate::util::{api_url, get_bittorrent_api_url, HostProbe};

verus! {

/// How to reach the daemon and log in to it.
#[derive(Debug, Clone, PartialEq, Eq)]
pub struct BitTorrentClientOptions {
    pub url: String,
    pub username: String,
    pub password: String,
}

/// Mathematical value of a [`BitTorrentClientOptions`].
pub struct BitTorrentClientOptionsView {
    pub url: Seq<char>,
    pub username: Seq<char>,
    pub password: Seq<char>,
}

impl View for BitTorrentClientOptions {
    type V = BitTorrentClientOptionsView;

    open spec fn view(&self) -> BitTorrentClientOptionsView {
        BitTorrentClientOptionsView {
            url: self.url@,
            username: self.username@,
            password: self.password@,
        }
    }
}

/// The identifiers that the first `n` of `pieces` spell. A piece that is no
/// number spells none.
pub open spec fn ids_among(pieces: Seq<Seq<char>>, n: int) -> Set<i64> {
    Set::new(|id: i64| exists|k: int| 0 <= k < n && #[trigger] parse_i64(pieces[k]) == Some(id))
}

/// The allow-list that a configured text spells: the numbers among its
/// pieces between commas. Pieces that are no numbers are passed over.
pub open spec fn allowed_ids(user_id: Seq<char>) -> Set<i64> {
    ids_among(split(user_id, ','), split(user_id, ',').len() as int)
}

/// Reads the allow-list from its configured text.
pub fn parse_allowed_user_ids(user_id: &str) -> (ids: HashSet<i64>)
    ensures
        ids@ == allowed_ids(user_id@),
{
    broadcast use vstd::std_specs::hash::group_hash_axioms;

    let pieces = split_chars(user_id, ',');
    let mut ids: HashSet<i64> = HashSet::new();
    let mut i: usize = 0;
    while i < pieces.len()
        invariant
            i <= pieces.len(),
            views(pieces@).len() == pieces.len(),
            ids@ == ids_among(views(pieces@), i as int),
        decreases pieces.len() - i,
    {
        match parse_decimal_i64(&pieces[i]) {
            Some(id) => {
                ids.insert(id);
                assert(parse_i64(views(pieces@)[i as int]) == Some(id));
            },
            None => {},
        }
        i += 1;
    }
    ids
}

/// The state behind a [`BotState`].
pub struct Inner {
    pub options: BitTorrentClientOptions,
    allowed_user_ids: HashSet<i64>,
}

/// The bot's lasting state. It is cheap to copy and never changes.
#[derive(Clone)]
pub struct BotState {
    inner: Arc<Inner>,
}

/// Mathematical value of a [`BotState`].
pub struct BotStateView {
    pub options: BitTorrentClientOptionsView,
    pub allowed_user_ids: Set<i64>,
}

impl View for Inner {
    type V = BotStateView;

    closed spec fn view(&self) -> BotStateView {
        BotStateView { options: self.options@, allowed_user_ids: self.allowed_user_ids@ }
    }
}

impl View for BotState {
    type V = BotStateView;

    closed spec fn view(&self) -> BotStateView {
        self.inner@
    }
}

/// The state that a configuration gives on a host: the daemon's address
/// worked out, the credentials taken over, and the allow-list read.
pub open spec fn configured(
    configuration: crate::config::ConfigurationView,
    probe: crate::util::HostProbeView,
) -> Result<BotStateView, ConfigurationError> {
    match api_url(configuration.url, probe) {
        Ok(url) => Ok(
            BotStateView {
                options: BitTorrentClientOptionsView {
                    url,
                    username: configuration.username,
                    password: configuration.password,
                },
                allowed_user_ids: allowed_ids(configuration.user_id),
            },
        ),
        Err(e) => Err(e),
    }
}

/// The view of a result that holds a state.
pub open spec fn state_result(r: Result<BotState, ConfigurationError>) -> Result<
    BotStateView,
    ConfigurationError,
> {
    match r {
        Ok(state) => Ok(state@),
        Err(e) => Err(e),
    }
}

impl std::ops::Deref for BotState {
    type Target = Inner;

    fn deref(&self) -> (inner: &Inner)
        ensures
            inner@ == self@,
    {
        &self.inner
    }
}

impl BotState {
    /// Makes the state from the configuration and from what was seen of the
    /// host.
    pub fn new(configuration: Configuration, probe: &HostProbe) -> (made: Result<
        BotState,
        ConfigurationError,
    >)
        ensures
            state_result(made) == configured(configuration@, probe@),
    {
        let allowed_user_ids = parse_allowed_user_ids(configuration.user_id.as_str());
        match get_bittorrent_api_url(&configuration, probe) {
            Ok(url) => Ok(
                BotState {
                    inner: Arc::new(
                        Inner {
                            allowed_user_ids,
                            options: BitTorrentClientOptions {
                                password: configuration.password,
                                username: configuration.username,
                                url,
                            },
                        },
                    ),
                },
            ),
            Err(e) => Err(e),
        }
    }

    /// Whether the user with this identifier is on the allow-list.
    pub fn user_allowed(&self, user_id: i64) -> (allowed: bool)
        ensures
            allowed == self@.allowed_user_ids.contains(user_id),
    {
        broadcast use vstd::std_specs::hash::group_hash_axioms;

        self.inner.allowed_user_ids.contains(&user_id)
    }

    /// How to reach the daemon and log in to it.
    pub fn options(&self) -> (options: &BitTorrentClientOptions)
        ensures
            options@ == self@.options,
    {
        &self.inner.options
    }
}

} // verus!
