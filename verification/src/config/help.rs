//! The help text of the command line.
use vstd::prelude::*;

use crate::config::cli::CliConfig;
use crate::status::{package_version, package_version_spec};
use crate::text::{replace_all, replace_spec};

verus! {

/// The help text, with `{CARGO_PKG_VERSION}` standing for the package version.
pub const HELP_TEMPLATE: &'static str = r#"sage-wiki-bridge

Usage:
  sage-wiki-bridge [OPTIONS]
  sage-wiki-bridge version [OPTIONS]
  sage-wiki-bridge status [OPTIONS]
  sage-wiki-bridge doctor [OPTIONS]
  sage-wiki-bridge health [OPTIONS]
  sage-wiki-bridge ready [OPTIONS]

Configuration sources are explicit and ordered:
  CLI flags > --env-file PATH > --use-process-env > built-in defaults.

Source controls:
  --env-file PATH
      Load dotenv-style config from PATH. Default: not loaded.
  --use-process-env
      Read process environment variables. Default: false.
  --help
      Print this help.
  --version
      Print the package version and exit.
  -V
      Print detailed version, resolved config, and config sources, then exit.

Core:
  --rust-log VALUE
      Default: info,sage_wiki_bridge=debug
  --bind-addr VALUE
      Default: 127.0.0.1:8080
  --database-url VALUE
      Default: sqlite://data/bridge.sqlite3
  --database-max-connections VALUE
      Default: 4
  --database-min-connections VALUE
      Default: 1
  --raw-archive-dir VALUE
      Default: data/raw
  --raw-archive-full true|false
      Default: true
  --processed-artifact-dir VALUE
      Default: data/processed
  --sage-wiki-source-dir VALUE
      Default: source
  --sage-wiki-source-log-dir VALUE
      Default: data/source-log
  --http-timeout-seconds VALUE
      Default: 30
  --request-body-limit-bytes VALUE
      Default: 2097152
  --healthz-path VALUE
      Default: /healthz
  --readyz-path VALUE
      Default: /readyz

WeChat:
  --wechat-token VALUE
      Default: none. Required for callback signature verification.
  --wechat-app-id VALUE
      Default: none.
  --wechat-app-secret VALUE
      Default: none.
  --wechat-encoding-aes-key VALUE
      Default: none. Required only when encrypted callback is enabled.
  --wechat-callback-path VALUE
      Default: /wechat/callback
  --wechat-encrypted-callback-enabled true|false
      Default: false
  --wechat-api-base VALUE
      Default: https://api.weixin.qq.com
  --wechat-admin-openids VALUE
      Default: empty list
  --wechat-token-refresh-skew-seconds VALUE
      Default: 300

Admin:
  --admin-base-path VALUE
      Default: /admin
  --admin-view-key VALUE
      Default: none.
  --whitelist-join-command VALUE
      Default: empty. When set, an exact text message match adds the sender OpenID to the whitelist.
  --admin-default-per-page VALUE
      Default: 20
  --admin-max-per-page VALUE
      Default: 100
  --honeypot-reply-enabled true|false
      Default: false
  --honeypot-reply-text VALUE
      Default: Message received.

Worker and external services:
  --worker-enabled true|false
      Default: true
  --worker-id VALUE
      Default: worker-main
  --bridge-version VALUE
      Default: {CARGO_PKG_VERSION}
  --worker-interval-ms VALUE
      Default: 1000
  --worker-processing-timeout-seconds VALUE
      Default: 900
  --worker-retry-base-seconds VALUE
      Default: 10
  --worker-retry-max-seconds VALUE
      Default: 300
  --max-media-bytes VALUE
      Default: 20971520
  --gemini-api-key VALUE
      Default: none.
  --gemini-endpoint-base VALUE
      Default: https://generativelanguage.googleapis.com
  --gemini-model VALUE
      Default: gemini-2.5-flash
  --gemini-max-inline-bytes VALUE
      Default: 18874368
  --llm-image-system-prompt VALUE
      Default: Describe this image for a personal knowledge base.
  --llm-voice-system-prompt VALUE
      Default: Transcribe and summarize this voice message.
  --llm-video-system-prompt VALUE
      Default: Summarize this video for a personal knowledge base.
  --openai-api-key VALUE
      Default: none.
  --anthropic-api-key VALUE
      Default: none.
  --tencent-lbs-key VALUE
      Default: none.
  --tencent-lbs-endpoint VALUE
      Default: https://apis.map.qq.com/ws/geocoder/v1/
  --tencent-lbs-get-poi true|false
      Default: true
  --tencent-lbs-radius-meters VALUE
      Default: empty.
  --jina-api-key VALUE
      Default: none.
  --jina-reader-endpoint VALUE
      Default: https://r.jina.ai
"#;

impl CliConfig {
    /// The help text: the template with every `{CARGO_PKG_VERSION}` replaced
    /// by the package version.
    pub fn help_text() -> (r: String)
        ensures
            r@ == replace_spec(HELP_TEMPLATE@, "{CARGO_PKG_VERSION}"@, package_version_spec()),
    {
        proof {
            reveal_strlit("{CARGO_PKG_VERSION}");
        }
        let version = package_version();
        replace_all(HELP_TEMPLATE, "{CARGO_PKG_VERSION}", version)
    }
}

} // verus!
