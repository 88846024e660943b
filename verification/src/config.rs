//! Configuration records consumed by the adapter constructors.

use vstd::prelude::*;

verus! {

/// How an adapter receives inbound messages: an HTTP webhook server, for
/// which a port is meaningful, or a persistent connection.
#[derive(Clone, Copy, Debug, PartialEq, Eq, Structural)]
pub enum LarkReceiveMode {
    Webhook,
    Websocket,
}

/// Configuration record for the specialized adapter. It deliberately lacks
/// the regional-variant flag: the specialization pins it. The encryption
/// key is part of the shared schema but unused by this adapter family.
pub struct FeishuConfig {
    pub app_id: String,
    pub app_secret: String,
    pub encrypt_key: Option<String>,
    pub verification_token: Option<String>,
    pub allowed_users: Vec<String>,
    pub receive_mode: LarkReceiveMode,
    pub port: Option<u16>,
}

/// Mathematical model of a [`FeishuConfig`].
pub struct FeishuConfigView {
    pub app_id: Seq<char>,
    pub app_secret: Seq<char>,
    pub encrypt_key: Option<Seq<char>>,
    pub verification_token: Option<Seq<char>>,
    pub allowed_users: Seq<Seq<char>>,
    pub receive_mode: LarkReceiveMode,
    pub port: Option<u16>,
}

impl FeishuConfig {
    /// Whether the record holds every field its receive mode needs: an HTTP
    /// port is meaningful, and required, exactly in webhook mode. A record
    /// failing this check is a configuration error, best detected before an
    /// adapter built from it is first used.
    pub fn has_required_port(&self) -> (r: bool)
        ensures
            r == (self@.receive_mode == LarkReceiveMode::Websocket || self@.port is Some),
    {
        match self.receive_mode {
            LarkReceiveMode::Websocket => true,
            LarkReceiveMode::Webhook => self.port.is_some(),
        }
    }
}

impl View for FeishuConfig {
    type V = FeishuConfigView;

    open spec fn view(&self) -> FeishuConfigView {
        FeishuConfigView {
            app_id: self.app_id@,
            app_secret: self.app_secret@,
            encrypt_key: self.encrypt_key.deep_view(),
            verification_token: self.verification_token.deep_view(),
            allowed_users: self.allowed_users.deep_view(),
            receive_mode: self.receive_mode,
            port: self.port,
        }
    }
}

} // verus!
