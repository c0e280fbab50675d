//! What a browser is started with: its executable, its debug port, its
//! profile directory and its command line.

use vstd::prelude::*;
use vstd::string::*;
use crate::text::{decimal, decimal_text};

verus! {

/// The views of a list of strings.
pub open spec fn strings_view(strings: Seq<String>) -> Seq<Seq<char>> {
    strings.map_values(|s: String| s@)
}

pub(crate) fn push_text(list: &mut Vec<String>, text: &str)
    ensures
        strings_view(final(list)@) == strings_view(old(list)@).push(text@),
{
    list.push(String::from_str(text));
    assert(strings_view(list@) =~= strings_view(old(list)@).push(text@));
}

/// The flags that every browser is started with: no sandbox and no zygote,
/// the GPU work in the main process and rendered in software, the script
/// heap capped, background services and updates off, a disk cache of
/// bounded size, no scrollbars, no sound, a fixed window size and a fixed
/// user agent.
pub open spec fn default_args() -> Seq<Seq<char>> {
    seq![
        "--no-sandbox"@,
        "--no-zygote"@,
        "--in-process-gpu"@,
        "--disable-dev-shm-usage"@,
        "--js-flags=--max-old-space-size=512"@,
        "--disable-features=Translate,OptimizationHints,MediaRouter,DialMediaRouteProvider"@,
        "--disable-background-networking"@,
        "--disable-component-update"@,
        "--disable-domain-reliability"@,
        "--disable-gpu"@,
        "--use-gl=swiftshader"@,
        "--disable-software-rasterizer"@,
        "--force-color-profile=srgb"@,
        "--disk-cache-dir=/tmp/chrome-cache"@,
        "--disk-cache-size=33554432"@,
        "--enable-async-dns"@,
        "--no-pings"@,
        "--disable-ipv6"@,
        "--hide-scrollbars"@,
        "--mute-audio"@,
        "--window-size=1200,1600"@,
        "--disable-breakpad"@,
        "--disable-infobars"@,
        "--disable-notifications"@,
        "--disable-popup-blocking"@,
        "--no-first-run"@,
        "--no-default-browser-check"@,
        "--user-agent=Mozilla/5.0 (Windows NT 10.0; Win64; x64) AppleWebKit/537.36 (KHTML, like Gecko) Chrome/122.0.0.0 Safari/537.36"@,
    ]
}

/// The flag that names the debug port.
pub open spec fn port_flag(port: u16) -> Seq<char> {
    "--remote-debugging-port="@ + decimal(port as nat)
}

/// The flag that names the profile directory.
pub open spec fn profile_flag(directory: Seq<char>) -> Seq<char> {
    "--user-data-dir="@ + directory
}

/// The flag that starts the browser without a window.
pub open spec fn headless_flag() -> Seq<char> {
    "--headless"@
}

/// The arguments that every browser is started with: the debug port and the
/// profile directory, then the flags of every launch.
pub open spec fn baseline(port: u16, directory: Seq<char>) -> Seq<Seq<char>> {
    seq![port_flag(port), profile_flag(directory)] + default_args()
}

/// What a browser is launched with.
#[derive(Debug, PartialEq, Eq)]
pub struct BrowserConfig {
    debug_port: u16,
    pub headless: bool,
    /// The profile directory of this launch.
    pub temp_dir: String,
    pub executable_path: String,
}

/// The mathematical value of a [`BrowserConfig`].
pub struct BrowserConfigView {
    pub debug_port: u16,
    pub headless: bool,
    pub temp_dir: Seq<char>,
    pub executable_path: Seq<char>,
}

impl BrowserConfigView {
    /// The arguments of the launch: the debug port and the profile
    /// directory, then the flags of every launch, then the headless flag
    /// where the browser is to run without a window.
    pub open spec fn args(self) -> Seq<Seq<char>> {
        baseline(self.debug_port, self.temp_dir) + (
        if self.headless {
            seq![headless_flag()]
        } else {
            Seq::empty()
        })
    }
}

impl View for BrowserConfig {
    type V = BrowserConfigView;

    closed spec fn view(&self) -> BrowserConfigView {
        BrowserConfigView {
            debug_port: self.debug_port,
            headless: self.headless,
            temp_dir: self.temp_dir@,
            executable_path: self.executable_path@,
        }
    }
}

impl BrowserConfig {
    /// The configuration of a headless launch of `executable_path` with the
    /// debug port `debug_port` and the profile directory `temp_dir`.
    pub fn new(executable_path: String, debug_port: u16, temp_dir: String) -> (config: BrowserConfig)
        ensures
            config@ == (BrowserConfigView {
                debug_port,
                headless: true,
                temp_dir: temp_dir@,
                executable_path: executable_path@,
            }),
    {
        BrowserConfig { debug_port, headless: true, temp_dir, executable_path }
    }

    /// The same launch with or without a window.
    pub fn with_headless(self, headless: bool) -> (config: BrowserConfig)
        ensures
            config@ == (BrowserConfigView { headless, ..self@ }),
    {
        BrowserConfig { headless, ..self }
    }

    /// The debug port.
    pub fn debug_port(&self) -> (port: u16)
        ensures
            port == self@.debug_port,
    {
        self.debug_port
    }

    /// The arguments to start the browser with.
    pub fn get_browser_args(&self) -> (args: Vec<String>)
        ensures
            strings_view(args@) == self@.args(),
    {
        let mut args = baseline_args(self.debug_port, self.temp_dir.as_str());
        if self.headless {
            push_text(&mut args, "--headless");
        }
        assert(strings_view(args@) =~= self@.args());
        args
    }
}

/// Lists the arguments that every browser is started with.
pub fn baseline_args(port: u16, directory: &str) -> (args: Vec<String>)
    ensures
        strings_view(args@) == baseline(port, directory@),
{
    let mut args: Vec<String> = Vec::new();
    assert(strings_view(args@) =~= Seq::<Seq<char>>::empty());
    let mut debugging = String::from_str("--remote-debugging-port=");
    debugging.append(decimal_text(port as u64).as_str());
    push_text(&mut args, debugging.as_str());
    let mut profile = String::from_str("--user-data-dir=");
    profile.append(directory);
    push_text(&mut args, profile.as_str());
    push_text(&mut args, "--no-sandbox");
    push_text(&mut args, "--no-zygote");
    push_text(&mut args, "--in-process-gpu");
    push_text(&mut args, "--disable-dev-shm-usage");
    push_text(&mut args, "--js-flags=--max-old-space-size=512");
    push_text(
        &mut args,
        "--disable-features=Translate,OptimizationHints,MediaRouter,DialMediaRouteProvider",
    );
    push_text(&mut args, "--disable-background-networking");
    push_text(&mut args, "--disable-component-update");
    push_text(&mut args, "--disable-domain-reliability");
    push_text(&mut args, "--disable-gpu");
    push_text(&mut args, "--use-gl=swiftshader");
    push_text(&mut args, "--disable-software-rasterizer");
    push_text(&mut args, "--force-color-profile=srgb");
    push_text(&mut args, "--disk-cache-dir=/tmp/chrome-cache");
    push_text(&mut args, "--disk-cache-size=33554432");
    push_text(&mut args, "--enable-async-dns");
    push_text(&mut args, "--no-pings");
    push_text(&mut args, "--disable-ipv6");
    push_text(&mut args, "--hide-scrollbars");
    push_text(&mut args, "--mute-audio");
    push_text(&mut args, "--window-size=1200,1600");
    push_text(&mut args, "--disable-breakpad");
    push_text(&mut args, "--disable-infobars");
    push_text(&mut args, "--disable-notifications");
    push_text(&mut args, "--disable-popup-blocking");
    push_text(&mut args, "--no-first-run");
    push_text(&mut args, "--no-default-browser-check");
    push_text(
        &mut args,
        "--user-agent=Mozilla/5.0 (Windows NT 10.0; Win64; x64) AppleWebKit/537.36 (KHTML, like Gecko) Chrome/122.0.0.0 Safari/537.36",
    );
    assert(strings_view(args@) =~= baseline(port, directory@));
    args
}

} // verus!
