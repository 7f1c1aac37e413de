//! The settings of the program.

use vstd::prelude::*;

use crate::paths;
use crate::speedtest::{SpeedtestOptions, SpeedtestProvider};
use crate::text;
use crate::time::{self, Duration};

verus! {

#[derive(Debug)]
pub struct Config {
    pub theme: Option<String>,
    pub speedtest: SpeedtestConfig,
}

#[derive(Debug)]
pub struct SpeedtestConfig {
    pub provider: SpeedtestProvider,
    pub timeout_seconds: Option<u64>,
    pub custom_command: Option<String>,
    pub custom_args: Vec<String>,
}

/// The settings as a mathematical value.
#[verifier::ext_equal]
pub struct ConfigView {
    pub theme: Option<Seq<char>>,
    pub speedtest: SpeedtestConfigView,
}

/// The settings of the speed test as a mathematical value.
#[verifier::ext_equal]
pub struct SpeedtestConfigView {
    pub provider: SpeedtestProvider,
    pub timeout_seconds: Option<u64>,
    pub custom_command: Option<Seq<char>>,
    pub custom_args: Seq<Seq<char>>,
}

impl View for Config {
    type V = ConfigView;

    open spec fn view(&self) -> ConfigView {
        ConfigView { theme: text::opt_text(self.theme), speedtest: self.speedtest@ }
    }
}

impl View for SpeedtestConfig {
    type V = SpeedtestConfigView;

    open spec fn view(&self) -> SpeedtestConfigView {
        SpeedtestConfigView {
            provider: self.provider,
            timeout_seconds: self.timeout_seconds,
            custom_command: text::opt_text(self.custom_command),
            custom_args: text::texts(self.custom_args@),
        }
    }
}

impl SpeedtestConfigView {
    /// The speed test of a program without a settings file.
    pub open spec fn standard() -> SpeedtestConfigView {
        SpeedtestConfigView {
            provider: SpeedtestProvider::Apple,
            timeout_seconds: None,
            custom_command: None,
            custom_args: seq![],
        }
    }
}

impl ConfigView {
    /// The settings of a program without a settings file.
    pub open spec fn standard() -> ConfigView {
        ConfigView { theme: None, speedtest: SpeedtestConfigView::standard() }
    }
}

impl Default for SpeedtestConfig {
    fn default() -> (r: Self)
        ensures
            r@ == SpeedtestConfigView::standard(),
    {
        let r = SpeedtestConfig {
            provider: SpeedtestProvider::Apple,
            timeout_seconds: None,
            custom_command: None,
            custom_args: Vec::new(),
        };
        assert(r@ =~= SpeedtestConfigView::standard());
        r
    }
}

impl Default for Config {
    fn default() -> (r: Self)
        ensures
            r@ == ConfigView::standard(),
    {
        Config { theme: None, speedtest: SpeedtestConfig::default() }
    }
}

/// What was read from the settings file, as a mathematical value: none where
/// there is no file, and an error where it cannot be understood.
pub open spec fn found_view(found: Option<Result<Config, String>>) -> Option<
    Result<ConfigView, Seq<char>>,
> {
    match found {
        Some(read) => Some(read_view(read)),
        None => None,
    }
}

pub open spec fn read_view(read: Result<Config, String>) -> Result<ConfigView, Seq<char>> {
    match read {
        Ok(config) => Ok(config@),
        Err(e) => Err(e@),
    }
}

/// The settings, given what was read.
pub open spec fn loaded(found: Option<Result<ConfigView, Seq<char>>>) -> Result<
    ConfigView,
    Seq<char>,
> {
    match found {
        Some(read) => read,
        None => Ok(ConfigView::standard()),
    }
}

/// The settings that are written back with another theme, given what was read.
pub open spec fn theme_saved(
    found: Option<Result<ConfigView, Seq<char>>>,
    name: Seq<char>,
) -> ConfigView {
    let kept = match found {
        Some(Ok(config)) => config,
        _ => ConfigView::standard(),
    };
    ConfigView { theme: Some(name), ..kept }
}

impl Config {
    /// The settings, given what was read from the settings file, if there is
    /// one.
    pub fn load(found: Option<Result<Config, String>>) -> (r: Result<Config, String>)
        ensures
            read_view(r) == loaded(found_view(found)),
            found matches Some(read) ==> r == read,
    {
        match found {
            Some(read) => read,
            None => Ok(Config::default()),
        }
    }

    /// The settings to write back with another theme, given what was read from
    /// the settings file, if there is one. Everything else is kept; a file
    /// that cannot be understood is replaced.
    pub fn save_theme(found: Option<Result<Config, String>>, name: &str) -> (r: Config)
        ensures
            r@ == theme_saved(found_view(found), name@),
            found matches Some(Ok(c)) ==> r.speedtest == c.speedtest,
    {
        let speedtest = match found {
            Some(Ok(c)) => c.speedtest,
            _ => SpeedtestConfig::default(),
        };
        Config { theme: Some(name.to_owned()), speedtest }
    }
}

/// A theme that was saved is the one that is loaded afterwards. All other
/// settings are those that were loaded before, or the standard ones where the
/// file could not be understood. To save the same theme again changes nothing,
/// and of two themes the later one counts.
pub proof fn a_saved_theme_is_loaded_again(
    found: Option<Result<ConfigView, Seq<char>>>,
    name: Seq<char>,
    earlier: Seq<char>,
)
    ensures
        loaded(Some(Ok(theme_saved(found, name)))) == Ok::<ConfigView, Seq<char>>(
            ConfigView {
                theme: Some(name),
                ..match loaded(found) {
                    Ok(before) => before,
                    Err(_) => ConfigView::standard(),
                }
            },
        ),
        theme_saved(Some(Ok(theme_saved(found, name))), name) == theme_saved(found, name),
        theme_saved(Some(Ok(theme_saved(found, earlier))), name) == theme_saved(found, name),
{
}

/// The path of the settings file: `.config/macwifi/config.toml` in the home
/// directory.
pub fn config_path(home: &str) -> (r: String)
    ensures
        r@ == paths::joined(
            paths::joined(paths::joined(home@, ".config"@), "macwifi"@),
            "config.toml"@,
        ),
{
    let settings = paths::join(home, ".config");
    let directory = paths::join(settings.as_str(), "macwifi");
    paths::join(directory.as_str(), "config.toml")
}

/// The theme to start with.
pub open spec fn theme_for(given: Option<Seq<char>>, config: ConfigView) -> Option<Seq<char>> {
    match given {
        Some(name) => Some(name),
        None => config.theme,
    }
}

/// The theme to start with: the one of the command line, else the configured
/// one.
pub fn chosen_theme(given: Option<String>, config: Config) -> (r: Option<String>)
    ensures
        text::opt_text(r) == theme_for(text::opt_text(given), config@),
        r == if given is Some {
            given
        } else {
            config.theme
        },
{
    match given {
        Some(name) => Some(name),
        None => config.theme,
    }
}

/// What the command line says about a speed test.
#[derive(Debug)]
pub struct SpeedtestArgs {
    pub provider: Option<SpeedtestProvider>,
    /// In seconds, at least one.
    pub timeout: Option<u64>,
    pub server_id: Option<u64>,
    pub custom_command: Option<String>,
    pub custom_args: Vec<String>,
}

/// The provider of a speed test.
pub open spec fn provider_of(
    args: SpeedtestArgs,
    config: SpeedtestConfig,
) -> SpeedtestProvider {
    match args.provider {
        Some(p) => p,
        None => config.provider,
    }
}

/// The options of a speed test as a mathematical value.
#[verifier::ext_equal]
pub struct OptionsView {
    pub provider: SpeedtestProvider,
    pub timeout_nanos: int,
    pub server_id: Option<u64>,
    pub custom_command: Option<Seq<char>>,
    pub custom_args: Seq<Seq<char>>,
}

pub open spec fn options_view(o: SpeedtestOptions) -> OptionsView {
    OptionsView {
        provider: o.provider,
        timeout_nanos: o.timeout.nanos as int,
        server_id: o.server_id,
        custom_command: text::opt_text(o.custom_command),
        custom_args: text::texts(o.custom_args@),
    }
}

/// The options of a speed test, out of the command line and the settings.
pub open spec fn options_for(args: SpeedtestArgs, config: SpeedtestConfig) -> OptionsView {
    OptionsView {
        provider: provider_of(args, config),
        timeout_nanos: (match args.timeout {
            Some(secs) => secs,
            None => match config.timeout_seconds {
                Some(secs) => secs,
                None => crate::speedtest::default_secs(provider_of(args, config)),
            },
        }) * time::NANOS_PER_SEC,
        server_id: args.server_id,
        custom_command: if args.custom_command is Some {
            text::opt_text(args.custom_command)
        } else {
            text::opt_text(config.custom_command)
        },
        custom_args: if args.custom_args@.len() == 0 {
            text::texts(config.custom_args@)
        } else {
            text::texts(args.custom_args@)
        },
    }
}

/// The options of a speed test: what the command line leaves open comes from
/// the settings, and the time limit at last from the provider. Arguments of
/// the command line replace the configured ones as a whole.
pub fn speedtest_options(args: SpeedtestArgs, config: SpeedtestConfig) -> (r: SpeedtestOptions)
    ensures
        options_view(r) == options_for(args, config),
        r.provider == provider_of(args, config),
        r.timeout.nanos == (match args.timeout {
            Some(secs) => secs,
            None => match config.timeout_seconds {
                Some(secs) => secs,
                None => crate::speedtest::default_secs(provider_of(args, config)),
            },
        }) * time::NANOS_PER_SEC,
        r.server_id == args.server_id,
        r.custom_command == if args.custom_command is Some {
            args.custom_command
        } else {
            config.custom_command
        },
        r.custom_args == if args.custom_args@.len() == 0 {
            config.custom_args
        } else {
            args.custom_args
        },
        r.timeout.nanos <= time::MAX_DURATION_NANOS,
{
    let provider = match args.provider {
        Some(p) => p,
        None => config.provider,
    };
    let timeout = match args.timeout {
        Some(secs) => Duration::from_secs(secs),
        None => match config.timeout_seconds {
            Some(secs) => Duration::from_secs(secs),
            None => provider.default_timeout(),
        },
    };
    SpeedtestOptions {
        provider,
        timeout,
        server_id: args.server_id,
        custom_command: match args.custom_command {
            Some(c) => Some(c),
            None => config.custom_command,
        },
        custom_args: if args.custom_args.len() == 0 {
            config.custom_args
        } else {
            args.custom_args
        },
    }
}

/// The theme of the command line counts before that of the settings, which
/// counts where none was given.
pub proof fn the_command_line_chooses_the_theme(name: Seq<char>, config: ConfigView)
    ensures
        theme_for(Some(name), config) == Some(name),
        theme_for(None, config) == config.theme,
{
}

/// What the command line says of a speed test counts, each part for itself,
/// and the settings count only for the parts that it leaves open; the time
/// limit comes from the provider where neither names one. The server is never
/// taken from the settings.
pub proof fn the_command_line_counts_before_the_settings(
    args: SpeedtestArgs,
    config: SpeedtestConfig,
)
    ensures
        ({
            let options = options_for(args, config);
            &&& args.provider matches Some(p) ==> options.provider == p
            &&& args.provider is None ==> options.provider == config.provider
            &&& args.timeout matches Some(secs) ==> options.timeout_nanos == secs * 1_000_000_000
            &&& args.timeout is None ==> (config.timeout_seconds matches Some(secs)
                ==> options.timeout_nanos == secs * 1_000_000_000)
            &&& args.timeout is None && config.timeout_seconds is None ==> options.timeout_nanos
                == if options.provider is Apple {
                30_000_000_000int
            } else {
                300_000_000_000int
            }
            &&& options.server_id == args.server_id
            &&& args.custom_command matches Some(c) ==> options.custom_command == Some(c@)
            &&& args.custom_command is None ==> (options.custom_command is Some
                <==> config.custom_command is Some)
            &&& args.custom_command is None ==> (config.custom_command matches Some(c)
                ==> options.custom_command == Some(c@))
            &&& args.custom_args@.len() > 0 ==> options.custom_args == text::texts(
                args.custom_args@,
            )
            &&& args.custom_args@.len() == 0 ==> options.custom_args == text::texts(
                config.custom_args@,
            )
        }),
{
}

/// Without settings there is no theme, and the speed test is Apple's, with
/// nothing else chosen.
pub proof fn nothing_is_chosen_without_settings()
    ensures
        loaded(None) matches Ok(config) && config.theme is None && config.speedtest.provider
            is Apple && config.speedtest.timeout_seconds is None
            && config.speedtest.custom_command is None && config.speedtest.custom_args.len() == 0,
{
}

} // verus!
