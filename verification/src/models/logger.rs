use crate::codec::{
    begin, group_codec, is_object, object, opt_field, read_opt_field, with_opt, write_opt_field,
    Model,
};
use crate::json::{str_eq, Json, JsonV};
use vstd::prelude::*;

verus! {

/// Describes the configuration option for the logging capability.
#[derive(Clone, Debug, Default, PartialEq)]
pub struct Logger {
    /// Set the level. The possible values are case-insensitive.
    pub level: Option<Level>,
    /// Path to the named pipe or file for the human readable log output.
    pub log_path: Option<String>,
    /// Whether or not to output the level in the logs.
    pub show_level: Option<bool>,
    /// Whether or not to include the file path and line number of the log's
    /// origin.
    pub show_log_origin: Option<bool>,
    /// The module path to filter log messages by.
    pub module: Option<String>,
}

/// The mathematical value of a [`Logger`].
pub struct LoggerView {
    pub level: Option<Level>,
    pub log_path: Option<Seq<char>>,
    pub show_level: Option<bool>,
    pub show_log_origin: Option<bool>,
    pub module: Option<Seq<char>>,
}

impl DeepView for Logger {
    type V = LoggerView;

    open spec fn deep_view(&self) -> LoggerView {
        LoggerView {
            level: self.level.deep_view(),
            log_path: self.log_path.deep_view(),
            show_level: self.show_level.deep_view(),
            show_log_origin: self.show_log_origin.deep_view(),
            module: self.module.deep_view(),
        }
    }
}

impl Model for Logger {
    open spec fn encoded(v: LoggerView) -> JsonV {
        let m = Seq::empty();
        let m = with_opt::<Level>(m, "level"@, v.level);
        let m = with_opt::<String>(m, "log_path"@, v.log_path);
        let m = with_opt::<bool>(m, "show_level"@, v.show_level);
        let m = with_opt::<bool>(m, "show_log_origin"@, v.show_log_origin);
        let m = with_opt::<String>(m, "module"@, v.module);
        JsonV::Object(m)
    }

    open spec fn decoded(j: JsonV) -> Option<LoggerView> {
        let level = opt_field::<Level>(j, "level"@);
        let log_path = opt_field::<String>(j, "log_path"@);
        let show_level = opt_field::<bool>(j, "show_level"@);
        let show_log_origin = opt_field::<bool>(j, "show_log_origin"@);
        let module = opt_field::<String>(j, "module"@);
        if j is Object
            && level is Some
            && log_path is Some
            && show_level is Some
            && show_log_origin is Some
            && module is Some {
            Some(
                LoggerView {
                    level: level.unwrap(),
                    log_path: log_path.unwrap(),
                    show_level: show_level.unwrap(),
                    show_log_origin: show_log_origin.unwrap(),
                    module: module.unwrap(),
                },
            )
        } else {
            None
        }
    }

    open spec fn faithful(v: LoggerView) -> bool {
        true
    }

    fn to_json(&self) -> (j: Json) {
        let mut m = begin();
        write_opt_field(&mut m, "level", &self.level);
        write_opt_field(&mut m, "log_path", &self.log_path);
        write_opt_field(&mut m, "show_level", &self.show_level);
        write_opt_field(&mut m, "show_log_origin", &self.show_log_origin);
        write_opt_field(&mut m, "module", &self.module);
        object(m)
    }

    fn from_json(j: &Json) -> (r: Option<Self>) {
        if !is_object(j) {
            return None;
        }
        let level = read_opt_field::<Level>(j, "level")?;
        let log_path = read_opt_field::<String>(j, "log_path")?;
        let show_level = read_opt_field::<bool>(j, "show_level")?;
        let show_log_origin = read_opt_field::<bool>(j, "show_log_origin")?;
        let module = read_opt_field::<String>(j, "module")?;
        Some(Logger { level, log_path, show_level, show_log_origin, module })
    }

    proof fn round_trip(v: LoggerView) {
        broadcast use group_codec;

        reveal_strlit("level");
        reveal_strlit("log_path");
        reveal_strlit("show_level");
        reveal_strlit("show_log_origin");
        reveal_strlit("module");
        assert("level"@.len() == 5);
        assert("log_path"@.len() == 8);
        assert("show_level"@.len() == 10);
        assert("show_log_origin"@.len() == 15);
        assert("module"@.len() == 6);
    }
}

/// Set the level. The possible values are case-insensitive.
#[derive(Clone, Copy, Debug, Default, Eq, PartialEq, Ord, PartialOrd, Hash)]
pub enum Level {
    #[default]
    Error,
    Warning,
    Info,
    Debug,
    Trace,
}

impl DeepView for Level {
    type V = Level;

    open spec fn deep_view(&self) -> Level {
        *self
    }
}

impl Level {
    /// The name under which a variant travels.
    pub open spec fn name(self) -> Seq<char> {
        match self {
            Level::Error => "Error"@,
            Level::Warning => "Warning"@,
            Level::Info => "Info"@,
            Level::Debug => "Debug"@,
            Level::Trace => "Trace"@,
        }
    }

    /// The variant that travels under a name.
    pub open spec fn named(s: Seq<char>) -> Option<Level> {
        if s == "Error"@ {
            Some(Level::Error)
        } else if s == "Warning"@ {
            Some(Level::Warning)
        } else if s == "Info"@ {
            Some(Level::Info)
        } else if s == "Debug"@ {
            Some(Level::Debug)
        } else if s == "Trace"@ {
            Some(Level::Trace)
        } else {
            None
        }
    }

    /// The name of the variant.
    pub fn as_str(&self) -> (r: &'static str)
        ensures
            r@ == self.name(),
    {
        match self {
            Level::Error => "Error",
            Level::Warning => "Warning",
            Level::Info => "Info",
            Level::Debug => "Debug",
            Level::Trace => "Trace",
        }
    }

    /// The variant that a name stands for, if it stands for one.
    pub fn from_name(s: &str) -> (r: Option<Level>)
        ensures
            r == Self::named(s@),
    {
        if str_eq(s, "Error") {
            Some(Level::Error)
        } else if str_eq(s, "Warning") {
            Some(Level::Warning)
        } else if str_eq(s, "Info") {
            Some(Level::Info)
        } else if str_eq(s, "Debug") {
            Some(Level::Debug)
        } else if str_eq(s, "Trace") {
            Some(Level::Trace)
        } else {
            None
        }
    }

    /// Different variants travel under different names.
    pub proof fn lemma_named_name(v: Level)
        ensures
            Self::named(v.name()) == Some(v),
    {
        reveal_strlit("Error");
        reveal_strlit("Warning");
        reveal_strlit("Info");
        reveal_strlit("Debug");
        reveal_strlit("Trace");
        assert("Error"@.len() == 5);
        assert("Warning"@.len() == 7);
        assert("Info"@.len() == 4);
        assert("Debug"@.len() == 5);
        assert("Trace"@.len() == 5);
        assert("Error"@[0] != "Debug"@[0]);
        assert("Error"@[0] != "Trace"@[0]);
        assert("Debug"@[0] != "Trace"@[0]);
    }
}

impl Model for Level {
    open spec fn encoded(v: Level) -> JsonV {
        JsonV::Str(v.name())
    }

    open spec fn decoded(j: JsonV) -> Option<Level> {
        match j {
            JsonV::Str(s) => Self::named(s),
            _ => None,
        }
    }

    open spec fn faithful(v: Level) -> bool {
        true
    }

    fn to_json(&self) -> (j: Json) {
        Json::Str(self.as_str().to_owned())
    }

    fn from_json(j: &Json) -> (r: Option<Level>) {
        match j {
            Json::Str(s) => Self::from_name(s.as_str()),
            _ => None,
        }
    }

    proof fn round_trip(v: Level) {
        Self::lemma_named_name(v);
    }
}

} // verus!
