//! The backend's configuration: three string parameters, each overridable
//! through an environment variable and each with a fixed default.

use vstd::prelude::*;

verus! {

/// Environment variable that overrides the package runner's executable name.
pub const RUNNER_VAR: &'static str = "DISCO_NOTES_UV";

/// Environment variable that overrides the interpreter's name.
pub const INTERPRETER_VAR: &'static str = "DISCO_NOTES_PYTHON";

/// Environment variable that overrides the port the backend listens on. The
/// same variable carries the resolved port to the backend.
pub const PORT_VAR: &'static str = "DISCO_NOTES_PORT";

/// Package runner used when `RUNNER_VAR` is unset.
pub const DEFAULT_RUNNER: &'static str = "uv";

/// Interpreter used when `INTERPRETER_VAR` is unset.
pub const DEFAULT_INTERPRETER: &'static str = "python";

/// Port used when `PORT_VAR` is unset.
pub const DEFAULT_PORT: &'static str = "8765";

/// One of the overridable parameters of the backend.
#[derive(Clone, Copy, Debug, PartialEq, Eq, Structural)]
pub enum Setting {
    /// Executable name of the package runner.
    Runner,
    /// Name of the interpreter that the runner starts.
    Interpreter,
    /// Network port of the backend, kept as text.
    Port,
}

impl Setting {
    /// The environment variable that overrides this setting.
    pub open spec fn var_name_text(self) -> Seq<char> {
        match self {
            Setting::Runner => RUNNER_VAR@,
            Setting::Interpreter => INTERPRETER_VAR@,
            Setting::Port => PORT_VAR@,
        }
    }

    /// The value this setting takes when its variable is unset.
    pub open spec fn default_text(self) -> Seq<char> {
        match self {
            Setting::Runner => DEFAULT_RUNNER@,
            Setting::Interpreter => DEFAULT_INTERPRETER@,
            Setting::Port => DEFAULT_PORT@,
        }
    }

    /// The value this setting takes given what its variable holds: the
    /// provided text, character for character, or the default where there is
    /// none.
    pub open spec fn resolved(self, provided: Option<Seq<char>>) -> Seq<char> {
        match provided {
            Some(text) => text,
            None => self.default_text(),
        }
    }

    /// Name of the environment variable to read for this setting.
    pub fn var_name(self) -> (name: &'static str)
        ensures
            name@ == self.var_name_text(),
    {
        match self {
            Setting::Runner => RUNNER_VAR,
            Setting::Interpreter => INTERPRETER_VAR,
            Setting::Port => PORT_VAR,
        }
    }

    /// Default of this setting.
    pub fn default_value(self) -> (value: &'static str)
        ensures
            value@ == self.default_text(),
    {
        match self {
            Setting::Runner => DEFAULT_RUNNER,
            Setting::Interpreter => DEFAULT_INTERPRETER,
            Setting::Port => DEFAULT_PORT,
        }
    }

    /// Resolves this setting from what its environment variable holds, `None`
    /// standing for an unset variable. A provided value is used as it is, with
    /// no trimming and no validation.
    pub fn resolve(self, provided: Option<String>) -> (value: String)
        ensures
            value@ == self.resolved(provided.deep_view()),
    {
        match provided {
            Some(text) => text,
            None => self.default_value().to_owned(),
        }
    }
}

/// Mathematical content of a `BackendConfig`.
pub struct ConfigModel {
    pub runner: Seq<char>,
    pub interpreter: Seq<char>,
    pub port: Seq<char>,
}

/// The resolved parameters of one launch attempt.
#[derive(Debug, PartialEq, Eq)]
pub struct BackendConfig {
    /// Executable name of the package runner.
    pub runner: String,
    /// Name of the interpreter that the runner starts.
    pub interpreter: String,
    /// Port handed to the backend.
    pub port: String,
}

impl View for BackendConfig {
    type V = ConfigModel;

    open spec fn view(&self) -> ConfigModel {
        ConfigModel { runner: self.runner@, interpreter: self.interpreter@, port: self.port@ }
    }
}

impl Clone for BackendConfig {
    fn clone(&self) -> (copy: BackendConfig)
        ensures
            copy@ == self@,
    {
        BackendConfig {
            runner: self.runner.clone(),
            interpreter: self.interpreter.clone(),
            port: self.port.clone(),
        }
    }
}

/// The configuration that follows from what the three variables hold.
pub open spec fn resolved_config(
    runner: Option<Seq<char>>,
    interpreter: Option<Seq<char>>,
    port: Option<Seq<char>>,
) -> ConfigModel {
    ConfigModel {
        runner: Setting::Runner.resolved(runner),
        interpreter: Setting::Interpreter.resolved(interpreter),
        port: Setting::Port.resolved(port),
    }
}

impl BackendConfig {
    /// Builds the configuration from what the three environment variables
    /// hold, each `None` where the variable is unset. Every parameter is
    /// resolved on its own: one override leaves the other two at their
    /// defaults.
    pub fn resolve(
        runner: Option<String>,
        interpreter: Option<String>,
        port: Option<String>,
    ) -> (config: BackendConfig)
        ensures
            config@ == resolved_config(
                runner.deep_view(),
                interpreter.deep_view(),
                port.deep_view(),
            ),
    {
        BackendConfig {
            runner: Setting::Runner.resolve(runner),
            interpreter: Setting::Interpreter.resolve(interpreter),
            port: Setting::Port.resolve(port),
        }
    }
}

/// Each parameter is what its variable holds, character for character, where
/// the variable is set, and its default where it is not; what one variable
/// holds has no bearing on the other two parameters.
pub proof fn lemma_override_or_default(
    runner: Option<Seq<char>>,
    interpreter: Option<Seq<char>>,
    port: Option<Seq<char>>,
)
    ensures
        resolved_config(runner, interpreter, port).runner == match runner {
            Some(text) => text,
            None => DEFAULT_RUNNER@,
        },
        resolved_config(runner, interpreter, port).interpreter == match interpreter {
            Some(text) => text,
            None => DEFAULT_INTERPRETER@,
        },
        resolved_config(runner, interpreter, port).port == match port {
            Some(text) => text,
            None => DEFAULT_PORT@,
        },
{
}

} // verus!
