use vstd::prelude::*;
use crate::manifest::{
    component_names, validate_components, validation_of, FlashError, Manifest,
};
use crate::script::{command_lines, Script, BOOTLOADER_TOKEN, IMAGE_TOKEN};
use crate::text::{lines_of, replace_all, views};

verus! {

/// Where a flash stands.
#[derive(Debug, Clone, Copy, PartialEq, Eq, Structural)]
pub enum Stage {
    /// Nothing is done yet.
    Idle,
    /// The package file exists.
    PackageChecked,
    /// A device is connected and ready.
    DeviceReady,
    /// The isolated directory exists.
    TempDirReady,
    /// The package is unpacked into it.
    Extracted,
    /// The manifest is parsed.
    ManifestValidated,
    /// Every component is present.
    ComponentsValidated,
    /// The working directory is the package's root.
    InPackageDir,
    /// The script runs.
    Flashing,
    /// The outcome is known; what was set up is taken down.
    CleaningUp,
    /// The outcome is reported.
    Finished,
}

/// What the check for a device found.
#[derive(Debug, Clone, Copy, PartialEq, Eq, Structural)]
pub enum DeviceCheck {
    /// The user said the device is not ready.
    Declined,
    /// No compatible device is connected.
    NoDevice,
    /// A compatible device is connected and ready.
    Ready,
}

/// What reading the package's manifest gave.
#[derive(Debug)]
pub enum ManifestRead {
    /// The package holds no manifest.
    Missing,
    /// The manifest does not fit its schema; the parser's message.
    Unparsable(String),
    /// The manifest.
    Parsed(Manifest),
}

/// What came of the action that the session asked for last.
#[derive(Debug)]
pub enum Event {
    PackageExists(bool),
    DeviceChecked(DeviceCheck),
    TempDirCreated(bool),
    Extracted(bool),
    ManifestRead(ManifestRead),
    /// Whether the file of each component, in the order of
    /// `Manifest::component_names`, exists in the package.
    ComponentsChecked(Vec<bool>),
    EnteredPackageDir(bool),
    /// The text of the script file, or `None` when it could not be read.
    ScriptRead(Option<String>),
    ScriptFinished(Result<(), String>),
    DirRestored,
    TempDirRemoved,
}

/// How a flash ends.
#[derive(Debug)]
pub enum Outcome {
    Done,
    Cancelled,
    Failed(FlashError),
}

/// What the session asks the caller to do next.
#[derive(Debug)]
pub enum Action {
    CheckPackage,
    /// Ask the user to confirm the device's mode, and look for devices.
    CheckDevice,
    CreateTempDir,
    /// Unpack the package into the isolated directory.
    Extract,
    ReadManifest,
    /// Say which of these files exist in the package.
    CheckComponents(Vec<String>),
    /// Make the package's root the working directory.
    EnterPackageDir,
    /// Read the script file of this name.
    ReadScript(String),
    RunScript(Script),
    /// Make the former working directory current again.
    RestoreDir,
    RemoveTempDir,
    /// Report the outcome; the session is over.
    Finish(Outcome),
}

/// An action as plain values.
pub enum ActionView {
    CheckPackage,
    CheckDevice,
    CreateTempDir,
    Extract,
    ReadManifest,
    CheckComponents(Seq<Seq<char>>),
    EnterPackageDir,
    ReadScript(Seq<char>),
    RunScript(Seq<Seq<char>>),
    RestoreDir,
    RemoveTempDir,
    Finish(Outcome),
}

impl View for Action {
    type V = ActionView;

    open spec fn view(&self) -> ActionView {
        match self {
            Action::CheckPackage => ActionView::CheckPackage,
            Action::CheckDevice => ActionView::CheckDevice,
            Action::CreateTempDir => ActionView::CreateTempDir,
            Action::Extract => ActionView::Extract,
            Action::ReadManifest => ActionView::ReadManifest,
            Action::CheckComponents(v) => ActionView::CheckComponents(views(v@)),
            Action::EnterPackageDir => ActionView::EnterPackageDir,
            Action::ReadScript(s) => ActionView::ReadScript(s@),
            Action::RunScript(s) => ActionView::RunScript(views(s.commands@)),
            Action::RestoreDir => ActionView::RestoreDir,
            Action::RemoveTempDir => ActionView::RemoveTempDir,
            Action::Finish(o) => ActionView::Finish(*o),
        }
    }
}

/// One flash of a package onto a device, as a sequence of decisions: each
/// event, the result of the last action, gives the next action.
#[derive(Debug)]
pub struct FlashSession {
    pub stage: Stage,
    /// The isolated directory exists.
    pub temp_dir: bool,
    /// The working directory is the package's root.
    pub in_package_dir: bool,
    pub manifest: Option<Manifest>,
    pub outcome: Option<Outcome>,
}

/// The commands of the flashing script: the script text's commands, with the
/// root filesystem as image and the manifest's bootloader.
pub open spec fn flash_commands(m: Manifest, text: Seq<char>) -> Seq<Seq<char>> {
    command_lines(lines_of(text)).map_values(
        |c: Seq<char>| replace_all(c, IMAGE_TOKEN@, m.packages.rootfs.name@),
    ).map_values(|c: Seq<char>| replace_all(c, BOOTLOADER_TOKEN@, m.packages.uboot.name@))
}

/// The next step of taking down what was set up: first the working
/// directory, then the isolated directory, then the report.
pub open spec fn cleanup_spec(s: FlashSession) -> (FlashSession, ActionView) {
    if s.in_package_dir {
        (s, ActionView::RestoreDir)
    } else if s.temp_dir {
        (s, ActionView::RemoveTempDir)
    } else {
        (FlashSession { stage: Stage::Finished, ..s }, ActionView::Finish(s.outcome->0))
    }
}

/// The session once the outcome `o` is known.
pub open spec fn conclude_spec(s: FlashSession, o: Outcome) -> (FlashSession, ActionView) {
    cleanup_spec(FlashSession { stage: Stage::CleaningUp, outcome: Some(o), ..s })
}

pub open spec fn fail_spec(s: FlashSession, e: FlashError) -> (FlashSession, ActionView) {
    conclude_spec(s, Outcome::Failed(e))
}

/// The session after an event that does not fit its stage: a flash under way
/// fails, one that is taken down or over goes on as it did.
pub open spec fn unexpected_spec(s: FlashSession) -> (FlashSession, ActionView) {
    if s.stage == Stage::CleaningUp || s.stage == Stage::Finished {
        cleanup_spec(s)
    } else {
        fail_spec(s, FlashError::UnexpectedEvent)
    }
}

/// The session and the next action after the event `e`.
pub open spec fn step_spec(s: FlashSession, e: Event) -> (FlashSession, ActionView) {
    match e {
        Event::PackageExists(found) => if s.stage != Stage::Idle {
            unexpected_spec(s)
        } else if found {
            (FlashSession { stage: Stage::PackageChecked, ..s }, ActionView::CheckDevice)
        } else {
            fail_spec(s, FlashError::PackageNotFound)
        },
        Event::DeviceChecked(d) => if s.stage != Stage::PackageChecked {
            unexpected_spec(s)
        } else {
            match d {
                DeviceCheck::Ready => (
                    FlashSession { stage: Stage::DeviceReady, ..s },
                    ActionView::CreateTempDir,
                ),
                DeviceCheck::NoDevice => fail_spec(s, FlashError::NoDeviceFound),
                DeviceCheck::Declined => conclude_spec(s, Outcome::Cancelled),
            }
        },
        Event::TempDirCreated(ok) => if s.stage != Stage::DeviceReady {
            unexpected_spec(s)
        } else if ok {
            (FlashSession { stage: Stage::TempDirReady, temp_dir: true, ..s }, ActionView::Extract)
        } else {
            fail_spec(s, FlashError::Extraction)
        },
        Event::Extracted(ok) => if s.stage != Stage::TempDirReady {
            unexpected_spec(s)
        } else if ok {
            (FlashSession { stage: Stage::Extracted, ..s }, ActionView::ReadManifest)
        } else {
            fail_spec(s, FlashError::Extraction)
        },
        Event::ManifestRead(r) => if s.stage != Stage::Extracted {
            unexpected_spec(s)
        } else {
            match r {
                ManifestRead::Missing => fail_spec(s, FlashError::ManifestMissing),
                ManifestRead::Unparsable(msg) => fail_spec(s, FlashError::ManifestParse(msg)),
                ManifestRead::Parsed(m) => (
                    FlashSession { stage: Stage::ManifestValidated, manifest: Some(m), ..s },
                    ActionView::CheckComponents(component_names(m)),
                ),
            }
        },
        Event::ComponentsChecked(present) => if s.stage != Stage::ManifestValidated
            || s.manifest is None {
            unexpected_spec(s)
        } else {
            match validation_of(s.manifest->0, present@) {
                Ok(()) => (
                    FlashSession { stage: Stage::ComponentsValidated, ..s },
                    ActionView::EnterPackageDir,
                ),
                Err(e) => fail_spec(s, e),
            }
        },
        Event::EnteredPackageDir(ok) => if s.stage != Stage::ComponentsValidated
            || s.manifest is None {
            unexpected_spec(s)
        } else if ok {
            (
                FlashSession { stage: Stage::InPackageDir, in_package_dir: true, ..s },
                ActionView::ReadScript(s.manifest->0.packages.script.name@),
            )
        } else {
            fail_spec(s, FlashError::WorkingDirectory)
        },
        Event::ScriptRead(t) => if s.stage != Stage::InPackageDir || s.manifest is None {
            unexpected_spec(s)
        } else {
            match t {
                None => fail_spec(s, FlashError::ScriptLoad(s.manifest->0.packages.script.name)),
                Some(text) => (
                    FlashSession { stage: Stage::Flashing, ..s },
                    ActionView::RunScript(flash_commands(s.manifest->0, text@)),
                ),
            }
        },
        Event::ScriptFinished(r) => if s.stage != Stage::Flashing {
            unexpected_spec(s)
        } else {
            match r {
                Ok(()) => conclude_spec(s, Outcome::Done),
                Err(msg) => fail_spec(s, FlashError::CommandExecution(msg)),
            }
        },
        Event::DirRestored => if s.stage != Stage::CleaningUp || !s.in_package_dir {
            unexpected_spec(s)
        } else {
            cleanup_spec(FlashSession { in_package_dir: false, ..s })
        },
        Event::TempDirRemoved => if s.stage != Stage::CleaningUp || s.in_package_dir
            || !s.temp_dir {
            unexpected_spec(s)
        } else {
            cleanup_spec(FlashSession { temp_dir: false, ..s })
        },
    }
}

/// What each stage has set up: the isolated directory exists from its
/// creation until it is removed, the working directory is the package's from
/// the move until it is restored, and a session over has taken both down.
pub open spec fn wf(s: FlashSession) -> bool {
    &&& (s.in_package_dir ==> s.temp_dir)
    &&& match s.stage {
        Stage::Idle | Stage::PackageChecked | Stage::DeviceReady => !s.temp_dir,
        Stage::TempDirReady | Stage::Extracted => s.temp_dir && !s.in_package_dir,
        Stage::ManifestValidated | Stage::ComponentsValidated => s.temp_dir && !s.in_package_dir
            && s.manifest is Some,
        Stage::InPackageDir | Stage::Flashing => s.temp_dir && s.in_package_dir
            && s.manifest is Some,
        Stage::CleaningUp => s.outcome is Some,
        Stage::Finished => s.outcome is Some && !s.temp_dir,
    }
}

/// Whatever stage a flash fails or ends in, it is reported only once the
/// working directory is restored and the isolated directory removed; and
/// every step keeps the session well formed.
pub proof fn lemma_cleanup(s: FlashSession, e: Event)
    requires
        wf(s),
    ensures
        wf(step_spec(s, e).0),
        step_spec(s, e).1 is Finish ==> !step_spec(s, e).0.temp_dir
            && !step_spec(s, e).0.in_package_dir && step_spec(s, e).0.stage == Stage::Finished,
        step_spec(s, e).1 is RemoveTempDir ==> !step_spec(s, e).0.in_package_dir,
{
}

/// A copy of the error.
fn copy_error(e: &FlashError) -> (r: FlashError)
    ensures
        r == *e,
{
    match e {
        FlashError::PackageNotFound => FlashError::PackageNotFound,
        FlashError::NoDeviceFound => FlashError::NoDeviceFound,
        FlashError::Extraction => FlashError::Extraction,
        FlashError::ManifestMissing => FlashError::ManifestMissing,
        FlashError::ManifestParse(m) => FlashError::ManifestParse(m.clone()),
        FlashError::MissingComponent(m) => FlashError::MissingComponent(m.clone()),
        FlashError::WorkingDirectory => FlashError::WorkingDirectory,
        FlashError::ScriptLoad(m) => FlashError::ScriptLoad(m.clone()),
        FlashError::CommandExecution(m) => FlashError::CommandExecution(m.clone()),
        FlashError::UnexpectedEvent => FlashError::UnexpectedEvent,
    }
}

/// A copy of the outcome.
fn copy_outcome(o: &Outcome) -> (r: Outcome)
    ensures
        r == *o,
{
    match o {
        Outcome::Done => Outcome::Done,
        Outcome::Cancelled => Outcome::Cancelled,
        Outcome::Failed(e) => Outcome::Failed(copy_error(e)),
    }
}

impl FlashSession {
    /// A session that has done nothing, and its first action.
    pub fn new() -> (r: (FlashSession, Action))
        ensures
            r.0.stage == Stage::Idle,
            !r.0.temp_dir,
            !r.0.in_package_dir,
            r.0.manifest is None,
            r.0.outcome is None,
            r.1 is CheckPackage,
            wf(r.0),
    {
        (
            FlashSession {
                stage: Stage::Idle,
                temp_dir: false,
                in_package_dir: false,
                manifest: None,
                outcome: None,
            },
            Action::CheckPackage,
        )
    }

    fn cleanup(&mut self) -> (a: Action)
        requires
            old(self).outcome is Some,
        ensures
            (*final(self), a@) == cleanup_spec(*old(self)),
    {
        if self.in_package_dir {
            Action::RestoreDir
        } else if self.temp_dir {
            Action::RemoveTempDir
        } else {
            self.stage = Stage::Finished;
            match &self.outcome {
                Some(o) => Action::Finish(copy_outcome(o)),
                None => Action::Finish(Outcome::Cancelled),
            }
        }
    }

    fn conclude(&mut self, o: Outcome) -> (a: Action)
        ensures
            (*final(self), a@) == conclude_spec(*old(self), o),
    {
        self.stage = Stage::CleaningUp;
        self.outcome = Some(o);
        self.cleanup()
    }

    fn unexpected(&mut self) -> (a: Action)
        requires
            wf(*old(self)),
        ensures
            (*final(self), a@) == unexpected_spec(*old(self)),
    {
        if self.stage == Stage::CleaningUp || self.stage == Stage::Finished {
            self.cleanup()
        } else {
            self.conclude(Outcome::Failed(FlashError::UnexpectedEvent))
        }
    }

    /// Takes in the result of the last action and gives the next action.
    pub fn step(&mut self, e: Event) -> (a: Action)
        requires
            wf(*old(self)),
        ensures
            (*final(self), a@) == step_spec(*old(self), e),
            wf(*final(self)),
    {
        proof {
            lemma_cleanup(*self, e);
        }
        match e {
            Event::PackageExists(found) => if self.stage != Stage::Idle {
                self.unexpected()
            } else if found {
                self.stage = Stage::PackageChecked;
                Action::CheckDevice
            } else {
                self.conclude(Outcome::Failed(FlashError::PackageNotFound))
            },
            Event::DeviceChecked(d) => if self.stage != Stage::PackageChecked {
                self.unexpected()
            } else {
                match d {
                    DeviceCheck::Ready => {
                        self.stage = Stage::DeviceReady;
                        Action::CreateTempDir
                    },
                    DeviceCheck::NoDevice => self.conclude(
                        Outcome::Failed(FlashError::NoDeviceFound),
                    ),
                    DeviceCheck::Declined => self.conclude(Outcome::Cancelled),
                }
            },
            Event::TempDirCreated(ok) => if self.stage != Stage::DeviceReady {
                self.unexpected()
            } else if ok {
                self.stage = Stage::TempDirReady;
                self.temp_dir = true;
                Action::Extract
            } else {
                self.conclude(Outcome::Failed(FlashError::Extraction))
            },
            Event::Extracted(ok) => if self.stage != Stage::TempDirReady {
                self.unexpected()
            } else if ok {
                self.stage = Stage::Extracted;
                Action::ReadManifest
            } else {
                self.conclude(Outcome::Failed(FlashError::Extraction))
            },
            Event::ManifestRead(r) => if self.stage != Stage::Extracted {
                self.unexpected()
            } else {
                match r {
                    ManifestRead::Missing => self.conclude(
                        Outcome::Failed(FlashError::ManifestMissing),
                    ),
                    ManifestRead::Unparsable(msg) => self.conclude(
                        Outcome::Failed(FlashError::ManifestParse(msg)),
                    ),
                    ManifestRead::Parsed(m) => {
                        let names = m.component_names();
                        self.stage = Stage::ManifestValidated;
                        self.manifest = Some(m);
                        Action::CheckComponents(names)
                    },
                }
            },
            Event::ComponentsChecked(present) => {
                if self.stage != Stage::ManifestValidated {
                    return self.unexpected();
                }
                let checked = match &self.manifest {
                    Some(m) => validate_components(m, &present),
                    None => {
                        return self.unexpected();
                    },
                };
                match checked {
                    Ok(()) => {
                        self.stage = Stage::ComponentsValidated;
                        Action::EnterPackageDir
                    },
                    Err(err) => self.conclude(Outcome::Failed(err)),
                }
            },
            Event::EnteredPackageDir(ok) => {
                if self.stage != Stage::ComponentsValidated {
                    return self.unexpected();
                }
                let name = match &self.manifest {
                    Some(m) => m.packages.script.name.clone(),
                    None => {
                        return self.unexpected();
                    },
                };
                if ok {
                    self.stage = Stage::InPackageDir;
                    self.in_package_dir = true;
                    Action::ReadScript(name)
                } else {
                    self.conclude(Outcome::Failed(FlashError::WorkingDirectory))
                }
            },
            Event::ScriptRead(t) => {
                if self.stage != Stage::InPackageDir {
                    return self.unexpected();
                }
                let script = match &self.manifest {
                    Some(m) => match t {
                        None => Err(m.packages.script.name.clone()),
                        Some(text) => Ok(
                            Script::new(text.as_str()).with_image(
                                m.packages.rootfs.name.as_str(),
                            ).with_bootloader(m.packages.uboot.name.as_str()),
                        ),
                    },
                    None => {
                        return self.unexpected();
                    },
                };
                match script {
                    Ok(script) => {
                        self.stage = Stage::Flashing;
                        Action::RunScript(script)
                    },
                    Err(name) => self.conclude(Outcome::Failed(FlashError::ScriptLoad(name))),
                }
            },
            Event::ScriptFinished(r) => if self.stage != Stage::Flashing {
                self.unexpected()
            } else {
                match r {
                    Ok(()) => self.conclude(Outcome::Done),
                    Err(msg) => self.conclude(Outcome::Failed(FlashError::CommandExecution(msg))),
                }
            },
            Event::DirRestored => if self.stage != Stage::CleaningUp || !self.in_package_dir {
                self.unexpected()
            } else {
                self.in_package_dir = false;
                self.cleanup()
            },
            Event::TempDirRemoved => if self.stage != Stage::CleaningUp || self.in_package_dir
                || !self.temp_dir {
                self.unexpected()
            } else {
                self.temp_dir = false;
                self.cleanup()
            },
        }
    }
}

} // verus!
