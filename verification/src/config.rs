//! The settings that the bot is started with.

use vstd::prelude::*;
use crate::text::option_text;

verus! {

/// The settings, as the configuration source spells them.
#[derive(Debug, Clone, PartialEq, Eq)]
pub struct Configuration {
    /// Credential of the bot at the chat service.
    pub bot_token: String,
    /// The identifiers of the users who may submit torrents, separated by
    /// commas.
    pub user_id: String,
    /// User name at the daemon.
    pub username: String,
    /// Password at the daemon.
    pub password: String,
    /// Address of the daemon, where it is configured.
    pub url: Option<String>,
}

/// Mathematical value of a [`Configuration`].
pub struct ConfigurationView {
    pub bot_token: Seq<char>,
    pub user_id: Seq<char>,
    pub username: Seq<char>,
    pub password: Seq<char>,
    pub url: Option<Seq<char>>,
}

impl View for Configuration {
    type V = ConfigurationView;

    open spec fn view(&self) -> ConfigurationView {
        ConfigurationView {
            bot_token: self.bot_token@,
            user_id: self.user_id@,
            username: self.username@,
            password: self.password@,
            url: option_text(self.url),
        }
    }
}

/// Why no working configuration could be made.
#[derive(Debug, Clone, Copy, PartialEq, Eq)]
pub enum ConfigurationError {
    /// The host's route table was needed and could not be read.
    RouteTableUnreadable,
    /// A line of the host's route table lacks a field that had to be read.
    RouteTableMalformed,
    /// No address is configured and none could be found on the host.
    UrlNotDetected,
}

} // verus!
