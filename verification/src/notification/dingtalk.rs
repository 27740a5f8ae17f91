//! Signed addresses for a DingTalk robot.

use vstd::prelude::*;
use vstd::string::StringExecFns;
use vstd::utf8::encode_utf8;
use crate::crypto_tools::{base64_text, hmac_sha256_base64, hmac_sha256_bytes};
use crate::error::Error;
use crate::text::{i64_to_string, spec_int_text};

verus! {

/// The signature for a time: the base64 of the HMAC-SHA256, under the
/// secret, of the time, a line feed and the secret.
pub open spec fn spec_signature(secret: Seq<char>, timestamp_millis: int) -> Seq<char> {
    base64_text(
        hmac_sha256_bytes(
            encode_utf8(secret),
            encode_utf8(spec_int_text(timestamp_millis) + "\n"@ + secret),
        ),
    )
}

#[derive(Clone, Debug)]
pub struct DingTalkBot {
    webhook: String,
    secret: String,
}

impl DingTalkBot {
    pub closed spec fn spec_webhook(self) -> Seq<char> {
        self.webhook@
    }

    pub closed spec fn spec_secret(self) -> Seq<char> {
        self.secret@
    }

    pub fn new(webhook: String, secret: String) -> (r: DingTalkBot)
        ensures
            r.spec_webhook() == webhook@,
            r.spec_secret() == secret@,
    {
        DingTalkBot { webhook, secret }
    }

    /// The signature for a time in milliseconds since the Unix epoch.
    pub fn generate_signature(&self, timestamp: i64) -> (r: String)
        ensures
            r@ == spec_signature(self.spec_secret(), timestamp as int),
    {
        let string_to_sign = i64_to_string(timestamp).concat("\n").concat(self.secret.as_str());
        hmac_sha256_base64(self.secret.as_str().as_bytes(), string_to_sign.as_str().as_bytes())
    }

    /// The address a message sent at `timestamp` is posted to: the webhook
    /// followed by the time and the signature.
    pub fn signed_webhook(&self, timestamp: i64) -> (r: String)
        ensures
            r@ == self.spec_webhook() + "&timestamp="@ + spec_int_text(timestamp as int)
                + "&sign="@ + spec_signature(self.spec_secret(), timestamp as int),
    {
        let sign = self.generate_signature(timestamp);
        self.webhook.clone().concat("&timestamp=").concat(
            i64_to_string(timestamp).as_str(),
        ).concat("&sign=").concat(sign.as_str())
    }

    /// What came of posting a text message: a refusal by the robot is a
    /// failure.
    pub fn text_sent(accepted: bool) -> (r: Result<(), Error>)
        ensures
            accepted ==> r is Ok,
            !accepted ==> (r matches Err(Error::UnknownError(m)) && m@
                == "Failed to send DingTalk message"@),
    {
        if accepted {
            Ok(())
        } else {
            Err(Error::UnknownError("Failed to send DingTalk message".to_string()))
        }
    }

    /// What came of posting a markdown message.
    pub fn markdown_sent(accepted: bool) -> (r: Result<(), Error>)
        ensures
            accepted ==> r is Ok,
            !accepted ==> (r matches Err(Error::UnknownError(m)) && m@
                == "Failed to send DingTalk markdown message"@),
    {
        if accepted {
            Ok(())
        } else {
            Err(Error::UnknownError("Failed to send DingTalk markdown message".to_string()))
        }
    }
}

} // verus!
