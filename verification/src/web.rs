//! Support for the temperature web page: the Wi-Fi credential
//! configuration and the page templating.
//!
//! Serving, socket handling and the board's temperature readout are
//! collaborators outside this library; what is kept here is the data
//! shape of the configuration and the exact text of the page a handler
//! returns.

use vstd::prelude::*;
use vstd::string::StringExecFns;

verus! {

/// The text that precedes the page body content.
pub const PAGE_PREFIX: &'static str =
    "\n<!DOCTYPE html>\n<html>\n    <head>\n        <meta charset=\"utf-8\">\n        <title>esp-rs web server</title>\n    </head>\n    <body>\n        ";

/// The text that follows the page body content.
pub const PAGE_SUFFIX: &'static str = "\n    </body>\n</html>\n";

/// The Wi-Fi credentials the web server's network bring-up uses. Both
/// default to empty and are filled from the build configuration.
#[derive(Clone, Copy, Debug)]
pub struct Config {
    /// The network name to join.
    pub wifi_ssid: &'static str,
    /// The network passphrase.
    pub wifi_psk: &'static str,
}

impl Default for Config {
    /// Empty credentials, the build-time default.
    fn default() -> (r: Self)
        ensures
            r.wifi_ssid@ == ""@,
            r.wifi_psk@ == ""@,
    {
        Config { wifi_ssid: "", wifi_psk: "" }
    }
}

/// Wrap body content in the fixed page frame: the result is exactly
/// the prefix, the content, and the suffix, in that order.
pub fn templated(content: &str) -> (r: String)
    ensures
        r@ == PAGE_PREFIX@ + content@ + PAGE_SUFFIX@,
{
    let mut page = String::new();
    page.append(PAGE_PREFIX);
    page.append(content);
    page.append(PAGE_SUFFIX);
    proof {
        assert(page@ =~= PAGE_PREFIX@ + content@ + PAGE_SUFFIX@);
    }
    page
}

/// The landing page: the fixed frame around a fixed greeting.
pub fn index_html() -> (r: String)
    ensures
        r@ == PAGE_PREFIX@ + "Hello from mcu!"@ + PAGE_SUFFIX@,
{
    templated("Hello from mcu!")
}

} // verus!
