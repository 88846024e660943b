//! Generalized platform adapter for the Lark platform family.
//!
//! The adapter owns credentials, a receive mode, a regional-variant flag and
//! a recipient allow-list. The flag and the mode are set by two fluent
//! configurators that consume the instance, so neither can change after the
//! adapter is in use; the flag selects the API host, the mode selects how
//! inbound messages arrive.

use vstd::prelude::*;

use crate::allowlist;
use crate::config::LarkReceiveMode;

verus! {

/// Mathematical model of a [`LarkChannel`].
#[verifier::ext_equal]
pub struct LarkChannelView {
    pub app_id: Seq<char>,
    pub app_secret: Seq<char>,
    pub verification_token: Seq<char>,
    pub port: Option<u16>,
    pub allowed_users: Seq<Seq<char>>,
    pub use_feishu: bool,
    pub receive_mode: LarkReceiveMode,
}

/// Stable platform identifier of the generalized adapter.
pub open spec fn lark_platform_name() -> Seq<char> {
    "lark"@
}

/// The API host selected by the regional-variant flag.
pub open spec fn spec_api_host(use_feishu: bool) -> Seq<char> {
    if use_feishu {
        "open.feishu.cn"@
    } else {
        "open.larksuite.com"@
    }
}

/// State of a freshly constructed generalized adapter: the given fields,
/// with the regional-variant flag defaulting to the international variant
/// and the receive mode defaulting to webhook.
pub open spec fn lark_new_spec(
    app_id: Seq<char>,
    app_secret: Seq<char>,
    verification_token: Seq<char>,
    port: Option<u16>,
    allowed_users: Seq<Seq<char>>,
) -> LarkChannelView {
    LarkChannelView {
        app_id: app_id,
        app_secret: app_secret,
        verification_token: verification_token,
        port: port,
        allowed_users: allowed_users,
        use_feishu: false,
        receive_mode: LarkReceiveMode::Webhook,
    }
}

/// The state after pinning the regional-variant flag: only the flag changes.
pub open spec fn spec_with_feishu(s: LarkChannelView, use_feishu: bool) -> LarkChannelView {
    LarkChannelView {
        app_id: s.app_id,
        app_secret: s.app_secret,
        verification_token: s.verification_token,
        port: s.port,
        allowed_users: s.allowed_users,
        use_feishu: use_feishu,
        receive_mode: s.receive_mode,
    }
}

/// The state after overriding the receive mode: only the mode changes.
pub open spec fn spec_with_receive_mode(
    s: LarkChannelView,
    receive_mode: LarkReceiveMode,
) -> LarkChannelView {
    LarkChannelView {
        app_id: s.app_id,
        app_secret: s.app_secret,
        verification_token: s.verification_token,
        port: s.port,
        allowed_users: s.allowed_users,
        use_feishu: s.use_feishu,
        receive_mode: receive_mode,
    }
}

/// Adapter for a platform family with two regional variants that differ in
/// endpoint host. All fields are private and no setter exists after the
/// consuming configurators, so an instance is immutable once in use.
pub struct LarkChannel {
    app_id: String,
    app_secret: String,
    verification_token: String,
    port: Option<u16>,
    allowed_users: Vec<String>,
    use_feishu: bool,
    receive_mode: LarkReceiveMode,
}

impl View for LarkChannel {
    type V = LarkChannelView;

    closed spec fn view(&self) -> LarkChannelView {
        LarkChannelView {
            app_id: self.app_id@,
            app_secret: self.app_secret@,
            verification_token: self.verification_token@,
            port: self.port,
            allowed_users: self.allowed_users.deep_view(),
            use_feishu: self.use_feishu,
            receive_mode: self.receive_mode,
        }
    }
}

impl LarkChannel {
    /// Create an adapter in its default configuration: international
    /// variant, webhook receive mode.
    pub fn new(
        app_id: String,
        app_secret: String,
        verification_token: String,
        port: Option<u16>,
        allowed_users: Vec<String>,
    ) -> (r: Self)
        ensures
            r@ == lark_new_spec(
                app_id@,
                app_secret@,
                verification_token@,
                port,
                allowed_users.deep_view(),
            ),
    {
        LarkChannel {
            app_id: app_id,
            app_secret: app_secret,
            verification_token: verification_token,
            port: port,
            allowed_users: allowed_users,
            use_feishu: false,
            receive_mode: LarkReceiveMode::Webhook,
        }
    }

    /// Pin the regional-variant flag. Consumes the instance, so the flag
    /// cannot change once the adapter is in use.
    pub fn with_feishu(self, use_feishu: bool) -> (r: Self)
        ensures
            r@ == spec_with_feishu(self@, use_feishu),
    {
        LarkChannel {
            app_id: self.app_id,
            app_secret: self.app_secret,
            verification_token: self.verification_token,
            port: self.port,
            allowed_users: self.allowed_users,
            use_feishu: use_feishu,
            receive_mode: self.receive_mode,
        }
    }

    /// Override the receive mode. Consumes the instance, so the mode cannot
    /// change once the adapter is in use.
    pub fn with_receive_mode(self, receive_mode: LarkReceiveMode) -> (r: Self)
        ensures
            r@ == spec_with_receive_mode(self@, receive_mode),
    {
        LarkChannel {
            app_id: self.app_id,
            app_secret: self.app_secret,
            verification_token: self.verification_token,
            port: self.port,
            allowed_users: self.allowed_users,
            use_feishu: self.use_feishu,
            receive_mode: receive_mode,
        }
    }

    /// Whether an inbound sender identity may be processed: the allow-list
    /// filter applied before a message is queued.
    pub fn is_user_allowed(&self, open_id: &str) -> (r: bool)
        ensures
            r == allowlist::allow_list_permits(self@.allowed_users, open_id@),
    {
        allowlist::is_allowed(&self.allowed_users, open_id)
    }

    /// The generalized adapter's own platform identifier.
    pub fn name(&self) -> (r: &str)
        ensures
            r@ == lark_platform_name(),
    {
        "lark"
    }

    /// The regional-variant flag.
    pub fn uses_feishu(&self) -> (r: bool)
        ensures
            r == self@.use_feishu,
    {
        self.use_feishu
    }

    /// The API host this instance talks to, determined by the flag alone.
    pub fn api_host(&self) -> (r: &str)
        ensures
            r@ == spec_api_host(self@.use_feishu),
    {
        if self.use_feishu {
            "open.feishu.cn"
        } else {
            "open.larksuite.com"
        }
    }

    /// The configured receive mode.
    pub fn receive_mode(&self) -> (r: LarkReceiveMode)
        ensures
            r == self@.receive_mode,
    {
        self.receive_mode
    }

    /// The configured HTTP port; meaningful only in webhook mode.
    pub fn port(&self) -> (r: Option<u16>)
        ensures
            r == self@.port,
    {
        self.port
    }

    /// Whether listening needs an HTTP server: exactly in webhook mode.
    pub fn requires_http_port(&self) -> (r: bool)
        ensures
            r == (self@.receive_mode == LarkReceiveMode::Webhook),
    {
        self.receive_mode == LarkReceiveMode::Webhook
    }
}

/// Health reporting policy of the adapter family: the outcome of a liveness
/// probe is reported as a plain boolean, and a probe error is never
/// propagated to the caller.
pub fn health_from_probe<E>(outcome: Result<(), E>) -> (r: bool)
    ensures
        r == (outcome is Ok),
{
    match outcome {
        Ok(()) => true,
        Err(_) => false,
    }
}

/// The two regional variants really differ in endpoint host.
pub proof fn lemma_variant_hosts_differ()
    ensures
        spec_api_host(true) != spec_api_host(false),
{
    reveal_strlit("open.feishu.cn");
    reveal_strlit("open.larksuite.com");
    assert(spec_api_host(true).len() == 14);
    assert(spec_api_host(false).len() == 18);
}

} // verus!
