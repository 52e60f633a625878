//! View modes and visualizer styles of the terminal front end.

use vstd::prelude::*;

verus! {

/// Visualization style for the visualizer view.
#[derive(Debug, Clone, Copy, PartialEq, Eq, Structural)]
pub enum VisualizerStyle {
    /// Vertical bars.
    Bars,
    /// Spectrum analyzer with mirrored bars.
    Spectrum,
    /// Oscilloscope waveform.
    Waveform,
    /// Horizontal level meter.
    LevelMeter,
}

impl VisualizerStyle {
    /// Cyclic successor of a style.
    pub open spec fn spec_next(self) -> VisualizerStyle {
        match self {
            VisualizerStyle::Bars => VisualizerStyle::Spectrum,
            VisualizerStyle::Spectrum => VisualizerStyle::Waveform,
            VisualizerStyle::Waveform => VisualizerStyle::LevelMeter,
            VisualizerStyle::LevelMeter => VisualizerStyle::Bars,
        }
    }

    /// Returns the next visualization style, wrapping after the last one.
    pub fn next(self) -> (r: Self)
        ensures
            r == self.spec_next(),
    {
        match self {
            VisualizerStyle::Bars => VisualizerStyle::Spectrum,
            VisualizerStyle::Spectrum => VisualizerStyle::Waveform,
            VisualizerStyle::Waveform => VisualizerStyle::LevelMeter,
            VisualizerStyle::LevelMeter => VisualizerStyle::Bars,
        }
    }
    /// Display name of a style.
    pub open spec fn spec_name(self) -> Seq<char> {
        match self {
            VisualizerStyle::Bars => "Bars"@,
            VisualizerStyle::Spectrum => "Spectrum"@,
            VisualizerStyle::Waveform => "Waveform"@,
            VisualizerStyle::LevelMeter => "Level Meter"@,
        }
    }

    /// Returns the name of the visualization style.
    pub fn name(&self) -> (r: &'static str)
        ensures
            r@ == self.spec_name(),
    {
        match self {
            VisualizerStyle::Bars => "Bars",
            VisualizerStyle::Spectrum => "Spectrum",
            VisualizerStyle::Waveform => "Waveform",
            VisualizerStyle::LevelMeter => "Level Meter",
        }
    }
}

impl Default for VisualizerStyle {
    fn default() -> (r: Self)
        ensures
            r == VisualizerStyle::Bars,
    {
        VisualizerStyle::Bars
    }
}

/// Current view mode of the application.
#[derive(Debug, Clone, Copy, PartialEq, Eq, Structural)]
pub enum ViewMode {
    /// The current playlist.
    Playlist,
    /// File/directory browser.
    Browser,
    /// Help overlay with the available commands.
    Help,
    /// Metadata and details of the current or selected track.
    TrackInfo,
    /// Full screen audio visualization.
    Visualizer,
    /// Application settings.
    Settings,
}

impl Default for ViewMode {
    fn default() -> (r: Self)
        ensures
            r == ViewMode::Playlist,
    {
        ViewMode::Playlist
    }
}

impl ViewMode {
    /// Tab order: Playlist, Browser, TrackInfo, Visualizer, Settings, then Playlist again.
    /// Help is outside the order and stays Help.
    pub open spec fn spec_next_tab(self) -> ViewMode {
        match self {
            ViewMode::Playlist => ViewMode::Browser,
            ViewMode::Browser => ViewMode::TrackInfo,
            ViewMode::TrackInfo => ViewMode::Visualizer,
            ViewMode::Visualizer => ViewMode::Settings,
            ViewMode::Settings => ViewMode::Playlist,
            ViewMode::Help => ViewMode::Help,
        }
    }

    /// Returns the next view in tab order.
    pub fn next_tab(self) -> (r: Self)
        ensures
            r == self.spec_next_tab(),
    {
        match self {
            ViewMode::Playlist => ViewMode::Browser,
            ViewMode::Browser => ViewMode::TrackInfo,
            ViewMode::TrackInfo => ViewMode::Visualizer,
            ViewMode::Visualizer => ViewMode::Settings,
            ViewMode::Settings => ViewMode::Playlist,
            ViewMode::Help => ViewMode::Help,
        }
    }

    /// Returns the previous view in tab order: the inverse of `next_tab`.
    pub fn prev_tab(self) -> (r: Self)
        ensures
            r.spec_next_tab() == self,
    {
        match self {
            ViewMode::Playlist => ViewMode::Settings,
            ViewMode::Browser => ViewMode::Playlist,
            ViewMode::TrackInfo => ViewMode::Browser,
            ViewMode::Visualizer => ViewMode::TrackInfo,
            ViewMode::Settings => ViewMode::Visualizer,
            ViewMode::Help => ViewMode::Help,
        }
    }
}

} // verus!
