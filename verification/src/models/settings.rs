//! The settings of the application.

use vstd::prelude::*;
use crate::text::{clone_opt_text, opt_text};

verus! {

/// Sound effects are on unless the settings say otherwise.
pub fn default_sound_effects_enabled() -> (r: bool)
    ensures
        r,
{
    true
}

/// The application does not start with the system unless the settings say so.
pub fn default_launch_on_startup() -> (r: bool)
    ensures
        !r,
{
    false
}

/// Feedback is not refined at startup unless the settings say so.
pub fn default_auto_refine_on_startup() -> (r: bool)
    ensures
        !r,
{
    false
}

/// GitHub integration is off unless the settings say otherwise.
pub fn default_github_integration_enabled() -> (r: bool)
    ensures
        !r,
{
    false
}

/// The mathematical view of [`Settings`].
pub struct SettingsView {
    pub projects_directory: Seq<char>,
    pub sound_effects_enabled: bool,
    pub launch_on_startup: bool,
    pub auto_refine_on_startup: bool,
    pub github_token: Option<Seq<char>>,
    pub github_integration_enabled: bool,
}

/// The settings of the application.
#[derive(Debug, PartialEq, Eq)]
pub struct Settings {
    pub projects_directory: String,
    pub sound_effects_enabled: bool,
    pub launch_on_startup: bool,
    pub auto_refine_on_startup: bool,
    pub github_token: Option<String>,
    pub github_integration_enabled: bool,
}

impl View for Settings {
    type V = SettingsView;

    open spec fn view(&self) -> SettingsView {
        SettingsView {
            projects_directory: self.projects_directory@,
            sound_effects_enabled: self.sound_effects_enabled,
            launch_on_startup: self.launch_on_startup,
            auto_refine_on_startup: self.auto_refine_on_startup,
            github_token: opt_text(self.github_token),
            github_integration_enabled: self.github_integration_enabled,
        }
    }
}

impl Default for Settings {
    /// The settings of a fresh installation: no projects directory, no
    /// GitHub token, and every switch at its default.
    fn default() -> (r: Self)
        ensures
            r@ == (SettingsView {
                projects_directory: Seq::empty(),
                sound_effects_enabled: true,
                launch_on_startup: false,
                auto_refine_on_startup: false,
                github_token: None,
                github_integration_enabled: false,
            }),
    {
        Settings {
            projects_directory: String::new(),
            sound_effects_enabled: default_sound_effects_enabled(),
            launch_on_startup: default_launch_on_startup(),
            auto_refine_on_startup: default_auto_refine_on_startup(),
            github_token: None,
            github_integration_enabled: default_github_integration_enabled(),
        }
    }
}

impl Clone for Settings {
    fn clone(&self) -> (r: Self)
        ensures
            r@ == self@,
    {
        Settings {
            projects_directory: self.projects_directory.clone(),
            sound_effects_enabled: self.sound_effects_enabled,
            launch_on_startup: self.launch_on_startup,
            auto_refine_on_startup: self.auto_refine_on_startup,
            github_token: clone_opt_text(&self.github_token),
            github_integration_enabled: self.github_integration_enabled,
        }
    }
}

} // verus!
