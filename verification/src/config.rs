//! The monitor's settings: the polling interval and the list of target URLs.
//!
//! The application reads and deserializes the configuration file and hands
//! the plain values to [`load_settings`], which checks them against the
//! shape the monitor requires: a positive interval, and no empty URL.

use vstd::prelude::*;
use vstd::string::StringExecFns;
use crate::text::{spec_dec, u128_to_string};

verus! {

/// Settings of the monitor itself.
#[derive(Clone, Debug)]
pub struct AppSpecificConfig {
    /// How long the orchestrator sleeps between cycles, in seconds.
    pub interval_seconds: u64,
}

/// The targets to probe, in probe order.
#[derive(Clone, Debug)]
pub struct WebsiteConfig {
    pub urls: Vec<String>,
}

/// Everything the monitor is configured with.
#[derive(Clone, Debug)]
pub struct Settings {
    pub app: AppSpecificConfig,
    pub websites: WebsiteConfig,
}

/// Why a supplied configuration cannot populate [`Settings`].
#[derive(Clone, Copy, Debug, PartialEq, Eq, Structural)]
pub enum SettingsError {
    /// The polling interval must be a positive number of seconds.
    ZeroInterval,
    /// Every target URL must be a non-empty string.
    EmptyUrl,
}

/// How much the monitor logs, set once at startup.
#[derive(Clone, Copy, Debug, PartialEq, Eq, Structural)]
pub enum LogVerbosity {
    Debug,
    Info,
}

/// The log verbosity for a configuration: debugging output exactly when the
/// configuration asks for it.
pub fn verbosity_for(debug_mode: bool) -> (v: LogVerbosity)
    ensures
        v == (if debug_mode {
            LogVerbosity::Debug
        } else {
            LogVerbosity::Info
        }),
{
    if debug_mode {
        LogVerbosity::Debug
    } else {
        LogVerbosity::Info
    }
}

/// Build the settings from the deserialized configuration values. Succeeds
/// exactly when the interval is positive and every URL is non-empty, and
/// then carries the values over unchanged; otherwise reports the first
/// requirement that fails, the interval being checked first.
pub fn load_settings(interval_seconds: u64, urls: Vec<String>) -> (r: Result<
    Settings,
    SettingsError,
>)
    ensures
        match r {
            Ok(s) => interval_seconds > 0 && (forall|i: int|
                0 <= i < urls@.len() ==> (#[trigger] urls@[i])@.len() > 0)
                && s.app.interval_seconds == interval_seconds && s.websites.urls == urls,
            Err(e) => (interval_seconds == 0 && e == SettingsError::ZeroInterval) || (
            interval_seconds > 0 && e == SettingsError::EmptyUrl && exists|i: int|
                0 <= i < urls@.len() && (#[trigger] urls@[i])@.len() == 0),
        },
{
    if interval_seconds == 0 {
        return Err(SettingsError::ZeroInterval);
    }
    let n = urls.len();
    for i in 0..n
        invariant
            interval_seconds > 0,
            n == urls@.len(),
            forall|j: int| 0 <= j < i ==> (#[trigger] urls@[j])@.len() > 0,
    {
        if urls[i].as_str().is_empty() {
            proof {
                assert((#[trigger] urls@[i as int])@.len() == 0);
            }
            return Err(SettingsError::EmptyUrl);
        }
    }
    Ok(Settings { app: AppSpecificConfig { interval_seconds }, websites: WebsiteConfig { urls } })
}

/// The description of the monitor's own settings.
pub open spec fn spec_describe_app(interval_seconds: int) -> Seq<char> {
    "AppSpecificConfig:\n  Interval Seconds: "@ + spec_dec(interval_seconds)
}

/// One numbered line of the target list, counting from 1.
pub open spec fn spec_url_line(position: int, url: Seq<char>) -> Seq<char> {
    "    "@ + spec_dec(position + 1) + ". "@ + url + "\n"@
}

/// The numbered lines for all targets, in order.
pub open spec fn spec_url_lines(urls: Seq<String>) -> Seq<char>
    decreases urls.len(),
{
    if urls.len() == 0 {
        Seq::<char>::empty()
    } else {
        spec_url_lines(urls.drop_last()) + spec_url_line(urls.len() - 1, urls.last()@)
    }
}

/// The description of the target list.
pub open spec fn spec_describe_websites(urls: Seq<String>) -> Seq<char> {
    "WebsiteConfig:\n  URLs: \n"@ + spec_url_lines(urls)
}

/// The description of the whole settings record.
pub open spec fn spec_describe_settings(s: Settings) -> Seq<char> {
    spec_describe_app(s.app.interval_seconds as int) + "\n\n"@ + spec_describe_websites(
        s.websites.urls@,
    )
}

/// Appending one URL extends the numbered lines by that URL's line alone.
proof fn lemma_url_lines_step(urls: Seq<String>, i: int)
    requires
        0 <= i < urls.len(),
    ensures
        spec_url_lines(urls.take(i + 1)) == spec_url_lines(urls.take(i)) + spec_url_line(
            i,
            urls[i]@,
        ),
{
    let t = urls.take(i + 1);
    assert(t.drop_last() =~= urls.take(i));
    assert(t.last() == urls[i]);
}

/// Shift one appended piece into the rendered prefix.
proof fn lemma_shift(pre: Seq<char>, acc: Seq<char>, piece: Seq<char>)
    ensures
        (pre + acc) + piece == pre + (acc + piece),
{
    vstd::seq_lib::lemma_concat_associative(pre, acc, piece);
}

impl AppSpecificConfig {
    /// Render these settings as plain text.
    pub fn describe(&self) -> (s: String)
        ensures
            s@ == spec_describe_app(self.interval_seconds as int),
    {
        let mut s = String::from_str("AppSpecificConfig:\n  Interval Seconds: ");
        let interval = u128_to_string(self.interval_seconds as u128);
        s.append(interval.as_str());
        s
    }
}

impl WebsiteConfig {
    /// Render the target list as plain text, one numbered line per URL.
    pub fn describe(&self) -> (s: String)
        ensures
            s@ == spec_describe_websites(self.urls@),
    {
        let ghost us = self.urls@;
        let mut s = String::from_str("WebsiteConfig:\n  URLs: \n");
        proof {
            assert(us.take(0) =~= Seq::<String>::empty());
        }
        let n = self.urls.len();
        for i in 0..n
            invariant
                n == us.len(),
                us == self.urls@,
                s@ == "WebsiteConfig:\n  URLs: \n"@ + spec_url_lines(us.take(i as int)),
        {
            let ghost pre = s@;
            let ghost mut acc = Seq::<char>::empty();
            s.append("    ");
            proof {
                assert(pre + acc =~= pre);
                lemma_shift(pre, acc, "    "@);
                acc = acc + "    "@;
            }
            let position = u128_to_string((i as u128) + 1);
            s.append(position.as_str());
            proof {
                lemma_shift(pre, acc, position@);
                acc = acc + position@;
            }
            s.append(". ");
            proof {
                lemma_shift(pre, acc, ". "@);
                acc = acc + ". "@;
            }
            s.append(self.urls[i].as_str());
            proof {
                lemma_shift(pre, acc, us[i as int]@);
                acc = acc + us[i as int]@;
            }
            s.append("\n");
            proof {
                lemma_shift(pre, acc, "\n"@);
                acc = acc + "\n"@;
                assert(acc == spec_url_line(i as int, us[i as int]@));
                lemma_url_lines_step(us, i as int);
            }
        }
        proof {
            assert(us.take(n as int) =~= us);
        }
        s
    }
}

impl Settings {
    /// Render the whole settings record as plain text.
    pub fn describe(&self) -> (s: String)
        ensures
            s@ == spec_describe_settings(*self),
    {
        let ghost pre = Seq::<char>::empty();
        let mut s = self.app.describe();
        let ghost mut acc = s@;
        s.append("\n\n");
        proof {
            assert(pre + acc =~= acc);
            lemma_shift(pre, acc, "\n\n"@);
            acc = acc + "\n\n"@;
        }
        let websites = self.websites.describe();
        s.append(websites.as_str());
        proof {
            lemma_shift(pre, acc, websites@);
            acc = acc + websites@;
            assert(s@ == spec_describe_settings(*self));
        }
        s
    }
}

} // verus!
