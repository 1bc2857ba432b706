//! The extension sandbox: what is injected into the scripting runtime, in which order,
//! and how a command is handed to the loaded script.
//!
//! The runtime itself is not here. The embedding program owns it, performs each step that
//! this module names, and evaluates each chunk that it writes.
//!
//! A sandbox whose extension is missing is not available, and stays so. Every call into
//! it then succeeds without doing anything: there is no step to take and no chunk to run.

pub mod chunk;
pub mod db;

use crate::error::StoreError;
use crate::host::HostField;
use crate::plugin::chunk::{call_chunk, command_call, texts};
use vstd::prelude::*;

verus! {

/// The file that an extension root has to hold for the sandbox to be available.
pub const ENTRY_POINT: &'static str = "init.lua";

/// The chunk that tells a loaded script that everything is in place.
pub const ON_LOAD: &'static str = "MANAGER.call_onload()";

/// Global under which a script finds the path of the extension root.
pub const ROOT_PATH: &'static str = "ROOT_PATH";

/// Global under which a script finds the access gateway.
pub const DB_MANAGER: &'static str = "DB_MANAGER";

/// Global under which a script finds the logger.
pub const LOGGER_IN: &'static str = "LOGGER_IN";

/// Global under which a script finds the static settings.
pub const PLUGIN_LOADER: &'static str = "PLUGIN_LOADER";

/// One step of bringing an extension up.
#[derive(Debug, Clone, Copy, PartialEq, Eq, Structural)]
pub enum LoadStep {
    /// Set the global [`ROOT_PATH`] to the path of the extension root.
    BindRootPath,
    /// Set the global [`DB_MANAGER`] to the access gateway.
    BindGateway,
    /// Set the global [`LOGGER_IN`] to the logger.
    BindLogger,
    /// Set the global [`PLUGIN_LOADER`] to a table of the static settings.
    BindLoader,
    /// Read the file [`ENTRY_POINT`] in the extension root and run it.
    RunEntryPoint,
    /// Run the chunk [`ON_LOAD`].
    RunOnLoad,
}

/// The steps that bring an extension up, in order; none where the sandbox is off.
pub open spec fn load_plan(available: bool) -> Seq<LoadStep> {
    if available {
        seq![
            LoadStep::BindRootPath,
            LoadStep::BindGateway,
            LoadStep::BindLogger,
            LoadStep::BindLoader,
            LoadStep::RunEntryPoint,
            LoadStep::RunOnLoad,
        ]
    } else {
        Seq::empty()
    }
}

/// What a step in the runtime comes to: a step that raised an error is a failure of the
/// extension, whatever it raised, and never one of the store.
pub fn runtime_result<T>(outcome: Option<T>) -> (result: Result<T, StoreError>)
    ensures
        outcome is Some ==> result == Ok::<T, StoreError>(outcome->0),
        outcome is None ==> result == Err::<T, StoreError>(StoreError::ExtensionRuntimeFailure),
{
    match outcome {
        Some(value) => Ok(value),
        None => Err(StoreError::ExtensionRuntimeFailure),
    }
}

/// The sandbox, as far as it can be known without the runtime: whether it is available,
/// where its extension lives, and the static settings that a script may read.
#[derive(Debug)]
pub struct PluginManager {
    available: bool,
    plugin_path: String,
    loader: Vec<HostField>,
}

impl PluginManager {
    /// Whether an extension can be loaded and called.
    pub closed spec fn is_available(self) -> bool {
        self.available
    }

    /// The path of the extension root.
    pub closed spec fn path_model(self) -> Seq<char> {
        self.plugin_path@
    }

    /// The static settings.
    pub closed spec fn loader_model(self) -> Vec<HostField> {
        self.loader
    }

    /// Sets the sandbox up for the extension root `plugin_path` and the static settings
    /// `loader`. It is available exactly if the root is a directory and holds the entry
    /// point as a file; it stays what it is from then on.
    pub fn init(
        plugin_path: String,
        loader: Vec<HostField>,
        root_is_dir: bool,
        entry_is_file: bool,
    ) -> (manager: PluginManager)
        ensures
            manager.is_available() == (root_is_dir && entry_is_file),
            manager.path_model() == plugin_path@,
            manager.loader_model() == loader,
    {
        PluginManager { available: root_is_dir && entry_is_file, plugin_path, loader }
    }

    /// Whether an extension can be loaded and called.
    pub fn available(&self) -> (available: bool)
        ensures
            available == self.is_available(),
    {
        self.available
    }

    /// The path of the extension root.
    pub fn plugin_path(&self) -> (path: &String)
        ensures
            path@ == self.path_model(),
    {
        &self.plugin_path
    }

    /// The static settings, read-only.
    pub fn loader(&self) -> (loader: &Vec<HostField>)
        ensures
            *loader == self.loader_model(),
    {
        &self.loader
    }

    /// The steps that bring the extension up, in the order in which they are to be
    /// taken: the globals first, then the entry point, then its `on_load` hook, once.
    /// Where the sandbox is not available there is nothing to do.
    pub fn loading(&self) -> (steps: Vec<LoadStep>)
        ensures
            steps@ == load_plan(self.is_available()),
    {
        let mut steps: Vec<LoadStep> = Vec::new();
        if self.available {
            steps.push(LoadStep::BindRootPath);
            steps.push(LoadStep::BindGateway);
            steps.push(LoadStep::BindLogger);
            steps.push(LoadStep::BindLoader);
            steps.push(LoadStep::RunEntryPoint);
            steps.push(LoadStep::RunOnLoad);
        }
        assert(steps@ =~= load_plan(self.is_available()));
        steps
    }

    /// The chunk to run for `source`: `source` itself where the sandbox is available,
    /// nothing where it is not, in which case the call has succeeded without doing
    /// anything.
    pub fn call<'a>(&self, source: &'a str) -> (chunk: Option<&'a str>)
        ensures
            chunk is Some <==> self.is_available(),
            chunk is Some ==> chunk->0@ == source@,
    {
        if self.available {
            Some(source)
        } else {
            None
        }
    }

    /// The chunk that hands the command `command` and its `argument`s to the loaded
    /// script (see [`call_chunk`]): the name and every argument, the empty list too.
    ///
    /// Where the sandbox is not available there is no chunk: the call has succeeded
    /// without doing anything, as every call into such a sandbox does.
    pub fn custom_command(&self, command: &str, argument: Vec<String>) -> (chunk: Option<String>)
        ensures
            chunk is Some <==> self.is_available(),
            chunk is Some ==> chunk->0@ == command_call(command@, texts(argument@)),
    {
        if self.available {
            Some(call_chunk(command, &argument))
        } else {
            None
        }
    }

    /// What a call into the sandbox comes to, given what the runtime made of its chunk:
    /// `ran` is what the chunk evaluated to, or `None` where it raised an error or
    /// there was no chunk.
    ///
    /// Where the sandbox is not available the call has succeeded, with `idle` for a
    /// result, and nothing was run. Where it is available, the result of the chunk is
    /// the result of the call, and an error that the script raised is
    /// [`StoreError::ExtensionRuntimeFailure`].
    pub fn outcome<T>(&self, ran: Option<T>, idle: T) -> (result: Result<T, StoreError>)
        ensures
            !self.is_available() ==> result == Ok::<T, StoreError>(idle),
            self.is_available() && ran is Some ==> result == Ok::<T, StoreError>(ran->0),
            self.is_available() && ran is None ==> result == Err::<T, StoreError>(
                StoreError::ExtensionRuntimeFailure,
            ),
    {
        if !self.available {
            Ok(idle)
        } else {
            match ran {
                Some(value) => Ok(value),
                None => Err(StoreError::ExtensionRuntimeFailure),
            }
        }
    }

    /// For a caller that has to tell its user whether scripting is there:
    /// [`StoreError::ExtensionUnavailable`] exactly if the sandbox is not available.
    /// Calls into the sandbox do not need this: on a sandbox that is not available they
    /// succeed without doing anything.
    pub fn require_available(&self) -> (status: Result<(), StoreError>)
        ensures
            status is Ok <==> self.is_available(),
            status is Err ==> status->Err_0 == StoreError::ExtensionUnavailable,
    {
        if self.available {
            Ok(())
        } else {
            Err(StoreError::ExtensionUnavailable)
        }
    }
}

} // verus!
