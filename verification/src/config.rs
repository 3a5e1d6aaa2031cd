use vstd::prelude::*;

use crate::constants::CONFIG_FILE;
use crate::domain::{Region, region_named, str_equal};
use crate::paths::{path_join, spec_path_join};

verus! {

/// How the launcher starts the game.
#[derive(Debug, Clone, Copy, PartialEq, Eq, Structural)]
pub enum LaunchMode {
    /// Through Steam, by opening a `steam://` URI.
    Steam,
    /// By running the game's executable directly.
    Direct,
}

impl Default for LaunchMode {
    fn default() -> (mode: Self)
        ensures
            mode == LaunchMode::Steam,
    {
        LaunchMode::Steam
    }
}

/// The name under which a launch mode is written to the configuration file.
pub open spec fn spec_launch_mode_name(mode: LaunchMode) -> Seq<char> {
    match mode {
        LaunchMode::Steam => "steam"@,
        LaunchMode::Direct => "direct"@,
    }
}

/// The launch mode that a name in the configuration file stands for. Besides
/// the names it is written under, `direct` is also read from the names
/// `battle_net` and `custom` that earlier versions wrote.
pub open spec fn launch_mode_named(s: Seq<char>) -> Option<LaunchMode> {
    if s == "steam"@ {
        Some(LaunchMode::Steam)
    } else if s == "direct"@ || s == "battle_net"@ || s == "custom"@ {
        Some(LaunchMode::Direct)
    } else {
        None
    }
}

impl LaunchMode {
    /// The name under which the launch mode is written to the configuration file.
    pub fn config_name(self) -> (name: &'static str)
        ensures
            name@ == spec_launch_mode_name(self),
    {
        match self {
            LaunchMode::Steam => "steam",
            LaunchMode::Direct => "direct",
        }
    }

    /// The launch mode that a name in the configuration file stands for.
    pub fn from_config_name(name: &str) -> (mode: Option<LaunchMode>)
        ensures
            mode == launch_mode_named(name@),
    {
        if str_equal(name, "steam") {
            Some(LaunchMode::Steam)
        } else if str_equal(name, "direct") || str_equal(name, "battle_net") || str_equal(
            name,
            "custom",
        ) {
            Some(LaunchMode::Direct)
        } else {
            None
        }
    }
}

/// The launcher's settings, as kept in `config.json`.
#[derive(Debug, Clone)]
pub struct Config {
    pub launch_mode: LaunchMode,
    /// Where the game is installed: its directory or its executable.
    pub d2r_path: Option<String>,
    /// Whether the launcher counts down and starts the game on its own.
    pub quick_launch: bool,
    /// The region that is selected when the launcher opens.
    pub default_region: Option<Region>,
}

/// Why the contents of a configuration file do not make a `Config`.
#[derive(Debug, Clone, PartialEq, Eq)]
pub enum ConfigError {
    /// `launch_mode` names no launch mode.
    UnknownLaunchMode(String),
    /// `default_region` names no region.
    UnknownRegion(String),
}

/// Whether quick launch is on where the configuration does not say.
pub fn default_quick_launch() -> (on: bool)
    ensures
        on,
{
    true
}

/// The text of an optional string.
pub open spec fn text_of(s: Option<&str>) -> Option<Seq<char>> {
    match s {
        Some(t) => Some(t@),
        None => None,
    }
}

/// Whether `result` is what reading a configuration file gives whose fields
/// are these, each `None` where the file leaves it out. A missing launch mode
/// is `steam`, a missing quick launch is on, and a missing path or region is
/// none. A launch mode or region that names nothing is an error; the launch
/// mode is looked at first.
pub open spec fn read_config(
    launch_mode: Option<Seq<char>>,
    d2r_path: Option<String>,
    quick_launch: Option<bool>,
    default_region: Option<Seq<char>>,
    result: Result<Config, ConfigError>,
) -> bool {
    match result {
        Ok(c) => {
            &&& launch_mode matches Some(name) ==> launch_mode_named(name) is Some
            &&& default_region matches Some(name) ==> region_named(name) is Some
            &&& c.launch_mode == match launch_mode {
                Some(name) => launch_mode_named(name)->Some_0,
                None => LaunchMode::Steam,
            }
            &&& c.d2r_path == d2r_path
            &&& c.quick_launch == match quick_launch {
                Some(on) => on,
                None => true,
            }
            &&& c.default_region == match default_region {
                Some(name) => region_named(name),
                None => None,
            }
        },
        Err(ConfigError::UnknownLaunchMode(name)) => {
            &&& launch_mode == Some(name@)
            &&& launch_mode_named(name@) is None
        },
        Err(ConfigError::UnknownRegion(name)) => {
            &&& launch_mode matches Some(n) ==> launch_mode_named(n) is Some
            &&& default_region == Some(name@)
            &&& region_named(name@) is None
        },
    }
}

/// The fields under which a configuration is written to its file.
pub open spec fn written_fields(c: Config) -> (
    Option<Seq<char>>,
    Option<String>,
    Option<bool>,
    Option<Seq<char>>,
) {
    (
        Some(spec_launch_mode_name(c.launch_mode)),
        c.d2r_path,
        Some(c.quick_launch),
        match c.default_region {
            Some(r) => Some(r.spec_name()),
            None => None,
        },
    )
}

/// How the launcher obtains its configuration at start.
#[derive(Debug, Clone)]
pub enum ConfigLoad {
    /// Read the configuration file.
    ReadFile,
    /// There is no configuration file: write this default configuration to
    /// it, and use it.
    WriteDefault(Config),
}

/// How the launcher obtains its configuration, given whether the
/// configuration file exists: it reads an existing file; where there is none,
/// it writes the default configuration to it and uses that.
pub fn plan_config_load(file_exists: bool) -> (plan: ConfigLoad)
    ensures
        file_exists ==> plan is ReadFile,
        !file_exists ==> (plan matches ConfigLoad::WriteDefault(c) && {
            &&& c.launch_mode == LaunchMode::Steam
            &&& c.d2r_path is None
            &&& c.quick_launch
            &&& c.default_region is None
        }),
{
    if file_exists {
        ConfigLoad::ReadFile
    } else {
        ConfigLoad::WriteDefault(Config::default())
    }
}

impl Default for Config {
    fn default() -> (config: Self)
        ensures
            config.launch_mode == LaunchMode::Steam,
            config.d2r_path is None,
            config.quick_launch,
            config.default_region is None,
    {
        Config {
            launch_mode: LaunchMode::Steam,
            d2r_path: None,
            quick_launch: true,
            default_region: None,
        }
    }
}

impl Config {
    /// Builds the configuration from the fields of a configuration file, each
    /// of them `None` where the file leaves it out. A missing launch mode is
    /// `steam`, a missing quick launch is on, and a missing path or region is
    /// none.
    pub fn from_fields(
        launch_mode: Option<&str>,
        d2r_path: Option<String>,
        quick_launch: Option<bool>,
        default_region: Option<&str>,
    ) -> (config: Result<Config, ConfigError>)
        ensures
            read_config(
                text_of(launch_mode),
                d2r_path,
                quick_launch,
                text_of(default_region),
                config,
            ),
            config matches Ok(c) ==> {
                &&& launch_mode is None ==> c.launch_mode == LaunchMode::Steam
                &&& quick_launch is None ==> c.quick_launch
                &&& default_region is None ==> c.default_region is None
                &&& c.d2r_path == d2r_path
            },
    {
        let mode = match launch_mode {
            Some(name) => match LaunchMode::from_config_name(name) {
                Some(mode) => mode,
                None => {
                    return Err(ConfigError::UnknownLaunchMode(String::from_str(name)));
                },
            },
            None => LaunchMode::Steam,
        };
        let region = match default_region {
            Some(name) => match Region::from_name(name) {
                Some(region) => Some(region),
                None => {
                    return Err(ConfigError::UnknownRegion(String::from_str(name)));
                },
            },
            None => None,
        };
        let quick = match quick_launch {
            Some(on) => on,
            None => default_quick_launch(),
        };
        Ok(Config { launch_mode: mode, d2r_path, quick_launch: quick, default_region: region })
    }

    /// The configured install location of the game.
    pub fn resolved_d2r_path(&self) -> (path: Option<String>)
        ensures
            match path {
                Some(p) => self.d2r_path matches Some(q) && p@ == q@,
                None => self.d2r_path is None,
            },
    {
        match &self.d2r_path {
            Some(p) => Some(p.clone()),
            None => None,
        }
    }

    /// Where the configuration file is: `config.json` in `config_dir`, the
    /// directory of the launcher's executable, or in the working directory
    /// where that is not known.
    pub fn config_path(config_dir: Option<&str>) -> (path: String)
        ensures
            path@ == spec_path_join(
                match config_dir {
                    Some(dir) => dir@,
                    None => "."@,
                },
                CONFIG_FILE@,
            ),
    {
        match config_dir {
            Some(dir) => path_join(dir, CONFIG_FILE),
            None => path_join(".", CONFIG_FILE),
        }
    }
}

/// Reading back the name that a launch mode is written under gives that mode.
pub proof fn lemma_launch_mode_name_round_trip(mode: LaunchMode)
    ensures
        launch_mode_named(spec_launch_mode_name(mode)) == Some(mode),
{
    reveal_strlit("steam");
    reveal_strlit("direct");
    assert("steam"@.len() != "direct"@.len());
}

/// The names that earlier versions wrote for running the executable directly
/// are read as the direct launch mode.
pub proof fn lemma_legacy_launch_mode_names_are_direct()
    ensures
        launch_mode_named("battle_net"@) == Some(LaunchMode::Direct),
        launch_mode_named("custom"@) == Some(LaunchMode::Direct),
{
    reveal_strlit("steam");
    reveal_strlit("battle_net");
    reveal_strlit("custom");
    assert("battle_net"@.len() != "steam"@.len());
    assert("custom"@.len() != "steam"@.len());
}

/// Reading back the fields that a configuration is written under gives that
/// configuration.
pub proof fn lemma_config_round_trip(c: Config, result: Result<Config, ConfigError>)
    requires
        read_config(
            written_fields(c).0,
            written_fields(c).1,
            written_fields(c).2,
            written_fields(c).3,
            result,
        ),
    ensures
        result == Ok::<Config, ConfigError>(c),
{
    lemma_launch_mode_name_round_trip(c.launch_mode);
    if let Some(r) = c.default_region {
        crate::domain::lemma_region_name_round_trip(r);
    }
}

/// A field that the file leaves out takes its default whatever the other
/// fields hold: no launch mode reads as Steam, no quick launch as on, no
/// region as none; and the launch mode read does not depend on the other fields.
pub proof fn lemma_missing_fields_take_defaults(
    launch_mode: Option<Seq<char>>,
    d2r_path: Option<String>,
    quick_launch: Option<bool>,
    default_region: Option<Seq<char>>,
    result: Result<Config, ConfigError>,
    other_path: Option<String>,
    other_quick: Option<bool>,
    other_region: Option<Seq<char>>,
    other: Result<Config, ConfigError>,
)
    requires
        read_config(launch_mode, d2r_path, quick_launch, default_region, result),
        read_config(launch_mode, other_path, other_quick, other_region, other),
    ensures
        result matches Ok(c) ==> {
            &&& launch_mode is None ==> c.launch_mode == LaunchMode::Steam
            &&& quick_launch is None ==> c.quick_launch
            &&& default_region is None ==> c.default_region is None
            &&& c.d2r_path == d2r_path
        },
        launch_mode is None ==> !(result matches Err(ConfigError::UnknownLaunchMode(_))),
        result is Ok && other is Ok ==> result->Ok_0.launch_mode
            == other->Ok_0.launch_mode,
{
}

} // verus!
