//! Specialized adapter for Feishu, the Chinese regional variant of Lark.
//!
//! The specialization exclusively owns one generalized adapter, constructs
//! it with the regional-variant flag pinned to the Feishu value, and exposes
//! a configuration surface without that flag. Every operation is a pure
//! forward to the owned adapter; only the platform identifier is overridden.

use vstd::prelude::*;

use crate::allowlist;
use crate::config::{FeishuConfig, FeishuConfigView, LarkReceiveMode};
use crate::channels::lark::{
    lark_new_spec, lark_platform_name, spec_api_host, spec_with_feishu, spec_with_receive_mode,
    LarkChannel, LarkChannelView,
};

verus! {

/// Fixed platform identifier of the specialized adapter.
pub open spec fn feishu_platform_name() -> Seq<char> {
    "feishu"@
}

/// State of a specialized adapter built from raw parameters: the default
/// generalized construction with the regional-variant flag pinned.
pub open spec fn feishu_new_spec(
    app_id: Seq<char>,
    app_secret: Seq<char>,
    verification_token: Seq<char>,
    port: Option<u16>,
    allowed_users: Seq<Seq<char>>,
) -> LarkChannelView {
    spec_with_feishu(
        lark_new_spec(app_id, app_secret, verification_token, port, allowed_users),
        true,
    )
}

/// The verification token a configuration supplies, defaulting to empty
/// when the optional field is absent.
pub open spec fn token_or_empty(token: Option<Seq<char>>) -> Seq<char> {
    match token {
        Some(t) => t,
        None => Seq::empty(),
    }
}

/// State of a specialized adapter built from a configuration record: each
/// field mapped one to one, the flag pinned, the receive mode taken from
/// the record.
pub open spec fn feishu_from_config_spec(c: FeishuConfigView) -> LarkChannelView {
    spec_with_receive_mode(
        feishu_new_spec(
            c.app_id,
            c.app_secret,
            token_or_empty(c.verification_token),
            c.port,
            c.allowed_users,
        ),
        c.receive_mode,
    )
}

/// Adapter locked to the Feishu variant: always talks to the Feishu
/// endpoints. For the international variant use [`LarkChannel`] directly.
pub struct FeishuChannel {
    inner: LarkChannel,
}

impl View for FeishuChannel {
    type V = LarkChannelView;

    closed spec fn view(&self) -> LarkChannelView {
        self.inner@
    }
}

impl FeishuChannel {
    /// Create a specialized adapter from raw parameters: the generalized
    /// adapter's parameters minus the regional-variant flag, which is
    /// pinned here.
    pub fn new(
        app_id: String,
        app_secret: String,
        verification_token: String,
        port: Option<u16>,
        allowed_users: Vec<String>,
    ) -> (r: Self)
        ensures
            r@ == feishu_new_spec(
                app_id@,
                app_secret@,
                verification_token@,
                port,
                allowed_users.deep_view(),
            ),
            r@.use_feishu,
    {
        let inner = LarkChannel::new(app_id, app_secret, verification_token, port, allowed_users)
            .with_feishu(true);
        FeishuChannel { inner }
    }

    /// Create a specialized adapter from a configuration record, defaulting
    /// a missing verification token to the empty string.
    pub fn from_config(config: &FeishuConfig) -> (r: Self)
        ensures
            r@ == feishu_from_config_spec(config@),
            r@.use_feishu,
    {
        let verification_token = match &config.verification_token {
            Some(t) => t.clone(),
            None => String::new(),
        };
        let inner = LarkChannel::new(
            config.app_id.clone(),
            config.app_secret.clone(),
            verification_token,
            config.port,
            clone_user_list(&config.allowed_users),
        )
            .with_feishu(true)
            .with_receive_mode(config.receive_mode);
        FeishuChannel { inner }
    }

    /// Whether an inbound sender identity may be processed; a pure forward
    /// to the owned generalized adapter's allow-list filter.
    pub fn is_user_allowed(&self, open_id: &str) -> (r: bool)
        ensures
            r == allowlist::allow_list_permits(self@.allowed_users, open_id@),
    {
        self.inner.is_user_allowed(open_id)
    }

    /// The specialized platform's own identifier: the one operation that is
    /// not a forward, and independent of the configuration.
    pub fn name(&self) -> (r: &str)
        ensures
            r@ == feishu_platform_name(),
    {
        "feishu"
    }

    /// The regional-variant flag of the owned generalized adapter.
    pub fn uses_feishu(&self) -> (r: bool)
        ensures
            r == self@.use_feishu,
    {
        self.inner.uses_feishu()
    }

    /// The API host of the owned generalized adapter.
    pub fn api_host(&self) -> (r: &str)
        ensures
            r@ == spec_api_host(self@.use_feishu),
    {
        self.inner.api_host()
    }

    /// The configured receive mode of the owned generalized adapter.
    pub fn receive_mode(&self) -> (r: LarkReceiveMode)
        ensures
            r == self@.receive_mode,
    {
        self.inner.receive_mode()
    }

    /// The configured HTTP port of the owned generalized adapter.
    pub fn port(&self) -> (r: Option<u16>)
        ensures
            r == self@.port,
    {
        self.inner.port()
    }

    /// Whether listening needs an HTTP server; a pure forward.
    pub fn requires_http_port(&self) -> (r: bool)
        ensures
            r == (self@.receive_mode == LarkReceiveMode::Webhook),
    {
        self.inner.requires_http_port()
    }
}

/// Copy an allow-list so a borrowed configuration record can hand it to the
/// owning constructor.
fn clone_user_list(users: &Vec<String>) -> (r: Vec<String>)
    ensures
        r@ == users@,
{
    let mut r: Vec<String> = Vec::new();
    let mut i: usize = 0;
    while i < users.len()
        invariant
            i <= users@.len(),
            r@.len() == i,
            forall|j: int| 0 <= j < i ==> r@[j] == users@[j],
        decreases users@.len() - i,
    {
        r.push(users[i].clone());
        i += 1;
    }
    proof {
        assert(r@ =~= users@);
    }
    r
}

/// A configuration without the optional verification token constructs the
/// same adapter as direct construction with an explicit empty token does,
/// once the receive mode is applied to both: defaulting is total, and in
/// particular both adapters permit exactly the same identifiers.
pub proof fn lemma_missing_token_defaults(c: FeishuConfigView)
    requires
        c.verification_token is None,
    ensures
        feishu_from_config_spec(c) == spec_with_receive_mode(
            feishu_new_spec(c.app_id, c.app_secret, Seq::empty(), c.port, c.allowed_users),
            c.receive_mode,
        ),
        forall|id: Seq<char>|
            allowlist::allow_list_permits(feishu_from_config_spec(c).allowed_users, id)
                == allowlist::allow_list_permits(
                feishu_new_spec(
                    c.app_id,
                    c.app_secret,
                    Seq::empty(),
                    c.port,
                    c.allowed_users,
                ).allowed_users,
                id,
            ),
{
}

/// Round trip: the adapter constructed from a configuration record permits
/// every identifier listed in the record, and, when the sentinel is absent,
/// permits no identifier absent from it.
pub proof fn lemma_config_round_trip(c: FeishuConfigView, listed: Seq<char>, absent: Seq<char>)
    requires
        c.allowed_users.contains(listed),
        !c.allowed_users.contains(absent),
        !c.allowed_users.contains(allowlist::wildcard()),
    ensures
        allowlist::allow_list_permits(feishu_from_config_spec(c).allowed_users, listed),
        !allowlist::allow_list_permits(feishu_from_config_spec(c).allowed_users, absent),
{
}

/// The specialized identifier really is distinct from the generalized
/// adapter's default identifier.
pub proof fn lemma_specialized_name_distinct()
    ensures
        feishu_platform_name() != lark_platform_name(),
{
    reveal_strlit("feishu");
    reveal_strlit("lark");
    assert(feishu_platform_name().len() == 6);
    assert(lark_platform_name().len() == 4);
}

} // verus!
