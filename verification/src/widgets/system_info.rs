//! The system information slice: filled once, by one message, after start.

use crate::effect::{Effect, EffectView, Job, JobView};
use crate::system_info::{shown_text, system_info_view, SystemInfoLine, SystemInformation};
use vstd::prelude::*;

verus! {

/// Shown while the system information has not arrived.
pub const PLACEHOLDER: &'static str = "...";

/// The state of the slice: the information, once it has been loaded.
#[derive(Debug, PartialEq, Eq)]
pub struct SystemInfo {
    pub system_info: Option<SystemInformation>,
}

/// What can happen to the slice.
#[derive(Clone, Debug, PartialEq, Eq)]
pub enum SystemInfoMessage {
    SystemInformationLoaded(SystemInformation),
}

impl View for SystemInfoMessage {
    type V = SystemInfoMessage;

    open spec fn view(&self) -> SystemInfoMessage {
        *self
    }
}

/// What the slice shows.
#[derive(Debug, PartialEq, Eq)]
pub enum SystemInfoView {
    /// Nothing has arrived yet: a placeholder text.
    Pending(String),
    /// The loaded information, one text per field.
    Loaded(SystemInfoLine),
}

impl SystemInfo {
    /// The slice before anything has been loaded.
    pub fn init() -> (slice: SystemInfo)
        ensures
            slice.system_info is None,
    {
        SystemInfo { system_info: None }
    }

    /// What the slice must show in this state: a placeholder until the
    /// information has arrived, then its three fields, "Unknown" for each
    /// missing one.
    pub open spec fn shown_as(self, shown: SystemInfoView) -> bool {
        match self.system_info {
            None => shown matches SystemInfoView::Pending(text) && text@ == PLACEHOLDER@,
            Some(info) => shown matches SystemInfoView::Loaded(line) && line.name@ == shown_text(
                info.system_name,
            ) && line.kernel@ == shown_text(info.system_kernel) && line.version@ == shown_text(
                info.system_version,
            ),
        }
    }

    /// The slice after one message.
    pub open spec fn step(self, message: SystemInfoMessage) -> SystemInfo {
        match message {
            SystemInfoMessage::SystemInformationLoaded(info) => SystemInfo {
                system_info: Some(info),
            },
        }
    }

    /// What the slice shows.
    pub fn view(&self) -> (shown: SystemInfoView)
        ensures
            self.shown_as(shown),
    {
        match &self.system_info {
            None => SystemInfoView::Pending(PLACEHOLDER.to_owned()),
            Some(info) => SystemInfoView::Loaded(system_info_view(info)),
        }
    }

    /// Stores the loaded information. No deferred work follows.
    pub fn update(&mut self, message: SystemInfoMessage) -> (effect: Effect<SystemInfoMessage>)
        ensures
            *final(self) == old(self).step(message),
            message matches SystemInfoMessage::SystemInformationLoaded(info)
                && final(self).system_info == Some(info),
            effect@ == EffectView::<SystemInfoMessage>::Nothing,
    {
        match message {
            SystemInfoMessage::SystemInformationLoaded(info) => {
                self.system_info = Some(info);
            },
        }
        Effect::Nothing
    }

    /// The work that fills the slice: one query of the operating system.
    pub fn fetch_information() -> (effect: Effect<SystemInfoMessage>)
        ensures
            effect@ == EffectView::<SystemInfoMessage>::Async(JobView::FetchSystemInformation),
    {
        Effect::Async(Job::FetchSystemInformation)
    }

    /// The message that a finished query ends in.
    pub fn information_fetched(info: SystemInformation) -> (message: SystemInfoMessage)
        ensures
            message == SystemInfoMessage::SystemInformationLoaded(info),
    {
        SystemInfoMessage::SystemInformationLoaded(info)
    }
}

} // verus!
