//! What the process needs to know before it starts: the bot's token, the
//! path of the downloader, and the one sender who may refresh the credential.

use vstd::prelude::*;
use crate::router::AUTHOR_ID;

verus! {

/// A required input that is absent. Either is fatal: the process ends
/// before it asks for the first update.
#[derive(Clone, Copy, Debug, PartialEq, Eq, Structural)]
pub enum ConfigMissing {
    /// The bot's authentication token.
    Token,
    /// The path of the downloader binary.
    Downloader,
}

/// The configuration of a running process.
#[derive(Clone, Debug, PartialEq, Eq)]
pub struct Config {
    pub token: String,
    pub downloader_path: String,
    pub authorized_id: u64,
}

/// Mathematical model of a [`Config`].
pub struct ConfigView {
    pub token: Seq<char>,
    pub downloader_path: Seq<char>,
    pub authorized_id: u64,
}

impl View for Config {
    type V = ConfigView;

    open spec fn view(&self) -> ConfigView {
        ConfigView {
            token: self.token@,
            downloader_path: self.downloader_path@,
            authorized_id: self.authorized_id,
        }
    }
}

/// What the process reports for a missing input before it ends.
pub open spec fn missing_text(missing: ConfigMissing) -> Seq<char> {
    match missing {
        ConfigMissing::Token => "TELEGRAM_TOKEN not set in env"@,
        ConfigMissing::Downloader => "YT_DLP not set in env"@,
    }
}

/// Checks the required inputs. Both must be present; a missing token is
/// reported before a missing downloader.
pub fn load_config(token: Option<String>, downloader_path: Option<String>) -> (loaded: Result<
    Config,
    ConfigMissing,
>)
    ensures
        match loaded {
            Ok(config) => {
                &&& token matches Some(t) && config@.token == t@
                &&& downloader_path matches Some(d) && config@.downloader_path == d@
                &&& config@.authorized_id == AUTHOR_ID
            },
            Err(ConfigMissing::Token) => token is None,
            Err(ConfigMissing::Downloader) => token is Some && downloader_path is None,
        },
{
    match token {
        None => Err(ConfigMissing::Token),
        Some(token) => match downloader_path {
            None => Err(ConfigMissing::Downloader),
            Some(downloader_path) => Ok(Config { token, downloader_path, authorized_id: AUTHOR_ID }),
        },
    }
}

impl ConfigMissing {
    /// What the process reports before it ends.
    pub fn message(&self) -> (text: &'static str)
        ensures
            text@ == missing_text(*self),
    {
        match self {
            ConfigMissing::Token => "TELEGRAM_TOKEN not set in env",
            ConfigMissing::Downloader => "YT_DLP not set in env",
        }
    }
}

} // verus!
