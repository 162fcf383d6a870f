//! The notifier's verified side: holding the delivery credentials and
//! composing the delivered text. The transport itself — building the request
//! and sending it — is the surrounding binary's concern.

use vstd::prelude::*;
use vstd::string::StringExecFns;
use crate::NotifyData;
use crate::ConfigError;
use crate::settings::TelegramSettings;

verus! {

/// The delivered text: the provenance tag, then the event's description.
pub open spec fn message_text_spec(site_name: Seq<char>, message: Seq<char>) -> Seq<char> {
    site_name + ": "@ + message
}

/// The credentials one delivery channel needs.
pub struct TelegramNotifier {
    chat_id: String,
    token: String,
}

impl TelegramNotifier {
    pub closed spec fn token_spec(&self) -> Seq<char> {
        self.token@
    }

    pub closed spec fn chat_id_spec(&self) -> Seq<char> {
        self.chat_id@
    }

    /// Capture the credentials from the loaded configuration.
    pub fn new(config: TelegramSettings) -> (r: Result<TelegramNotifier, ConfigError>)
        ensures
            r is Ok,
            r matches Ok(n) ==> n.token_spec() == config.token@ && n.chat_id_spec()
                == config.chat_id@,
    {
        Ok(TelegramNotifier { chat_id: config.chat_id, token: config.token })
    }

    /// The bot token, for the surrounding binary to address the channel.
    pub fn token(&self) -> (r: &String)
        ensures
            r@ == self.token_spec(),
    {
        &self.token
    }

    /// The chat the notifications go to.
    pub fn chat_id(&self) -> (r: &String)
        ensures
            r@ == self.chat_id_spec(),
    {
        &self.chat_id
    }

    /// The text one event is delivered as.
    pub fn message_text(&self, data: &NotifyData) -> (r: String)
        ensures
            r@ == message_text_spec(data.site_name@, data.message@),
    {
        let mut r = data.site_name.clone();
        r.append(": ");
        r.append(data.message.as_str());
        proof {
            assert(r@ =~= message_text_spec(data.site_name@, data.message@));
        }
        r
    }
}

} // verus!
