use vstd::prelude::*;
use crate::dispatch::ChannelConfig;

verus! {

/// The chat allowed to run the restricted channel test where no other is configured.
pub const DEV_CHAT_ID: i64 = 962210352;

/// Seconds between two polls where no other interval is configured.
pub const DEFAULT_POLL_INTERVAL_SECS: u64 = 30;

/// The settings read once at startup and shared, unchanged, by the poll loop and the
/// command handler.
pub struct BotConfig {
    pub source_url: String,
    pub channels: ChannelConfig,
    pub dev_chat: i64,
    pub poll_interval_secs: u64,
}

/// A mandatory setting that is absent.
#[derive(PartialEq, Eq, Structural, Debug)]
pub enum ConfigError {
    MissingSourceUrl,
    MissingPrimaryChat,
}

impl BotConfig {
    /// Builds the settings from what the environment gave, filling in the defaults.
    pub fn from_values(
        source_url: Option<String>,
        primary_chat: Option<i64>,
        webhook_url: Option<String>,
        dev_chat: Option<i64>,
        poll_interval_secs: Option<u64>,
    ) -> (r: Result<BotConfig, ConfigError>)
        ensures
            source_url is None ==> r == Err::<BotConfig, ConfigError>(ConfigError::MissingSourceUrl),
            source_url is Some && primary_chat is None ==> r == Err::<BotConfig, ConfigError>(
                ConfigError::MissingPrimaryChat,
            ),
            source_url is Some && primary_chat is Some ==> match r {
                Ok(c) => {
                    &&& c.source_url == source_url.unwrap()
                    &&& c.channels.primary_chat == primary_chat.unwrap()
                    &&& c.channels.webhook_url == webhook_url
                    &&& c.dev_chat == match dev_chat {
                        Some(d) => d,
                        None => DEV_CHAT_ID,
                    }
                    &&& c.poll_interval_secs == match poll_interval_secs {
                        Some(s) => s,
                        None => DEFAULT_POLL_INTERVAL_SECS,
                    }
                },
                Err(_) => false,
            },
    {
        match source_url {
            None => Err(ConfigError::MissingSourceUrl),
            Some(url) => match primary_chat {
                None => Err(ConfigError::MissingPrimaryChat),
                Some(chat) => {
                    let dev = match dev_chat {
                        Some(d) => d,
                        None => DEV_CHAT_ID,
                    };
                    let interval = match poll_interval_secs {
                        Some(s) => s,
                        None => DEFAULT_POLL_INTERVAL_SECS,
                    };
                    Ok(
                        BotConfig {
                            source_url: url,
                            channels: ChannelConfig { primary_chat: chat, webhook_url },
                            dev_chat: dev,
                            poll_interval_secs: interval,
                        },
                    )
                },
            },
        }
    }
}

} // verus!
