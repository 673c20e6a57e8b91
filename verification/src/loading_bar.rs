//! A loading bar widget.
//! Can be used for loading bars, but also health-bars, mana, those kind of things.
//!
//! The bar is a node with one child, the inner box, whose width shows the
//! progress. Of a node's style only what the bar sets is held here.

use crate::scalar::{Scalar, FIFTY, HUNDRED, ZERO};
use vstd::prelude::*;

verus! {

/// A length in a node's style.
#[derive(Clone, Copy, Debug, PartialEq, Eq, Structural)]
pub enum Val {
    /// Left to the layout.
    Auto,
    /// So many pixels.
    Px(Scalar),
    /// So many hundredths of the parent's length.
    Percent(Scalar),
}

/// The width and height of a node.
#[derive(Clone, Copy, Debug, PartialEq, Eq, Structural)]
pub struct Size {
    pub width: Val,
    pub height: Val,
}

impl Size {
    /// The size with the given width and height.
    pub fn new(width: Val, height: Val) -> (size: Size)
        ensures
            size == (Size { width, height }),
    {
        Size { width, height }
    }
}

/// Whether a node is laid out among its siblings or placed on its own.
#[derive(Clone, Copy, Debug, PartialEq, Eq, Structural)]
pub enum PositionType {
    Relative,
    Absolute,
}

/// How a node's children are spread along its main axis.
#[derive(Clone, Copy, Debug, PartialEq, Eq, Structural)]
pub enum JustifyContent {
    FlexStart,
    FlexEnd,
    Center,
    SpaceBetween,
    SpaceAround,
    SpaceEvenly,
}

/// How a node's children are placed along its cross axis.
#[derive(Clone, Copy, Debug, PartialEq, Eq, Structural)]
pub enum AlignItems {
    FlexStart,
    FlexEnd,
    Center,
    Baseline,
    Stretch,
}

/// The part of a node's style that a loading bar sets.
#[derive(Clone, Copy, Debug, PartialEq, Eq, Structural)]
pub struct Style {
    pub size: Size,
    pub position_type: PositionType,
    pub justify_content: JustifyContent,
    pub align_items: AlignItems,
}

impl Style {
    /// The style of a node that sets nothing: its size is left to the
    /// layout, it is laid out among its siblings, and its children start at
    /// the start of the main axis and are stretched along the other.
    pub open spec fn plain() -> Style {
        Style {
            size: Size { width: Val::Auto, height: Val::Auto },
            position_type: PositionType::Relative,
            justify_content: JustifyContent::FlexStart,
            align_items: AlignItems::Stretch,
        }
    }
}

impl Default for Style {
    fn default() -> (style: Self)
        ensures
            style == Style::plain(),
    {
        Style {
            size: Size { width: Val::Auto, height: Val::Auto },
            position_type: PositionType::Relative,
            justify_content: JustifyContent::FlexStart,
            align_items: AlignItems::Stretch,
        }
    }
}

/// The colour behind a node, by its red, green, blue and alpha parts.
#[derive(Clone, Copy, Debug, PartialEq, Eq, Structural)]
pub struct BackgroundColor {
    pub red: Scalar,
    pub green: Scalar,
    pub blue: Scalar,
    pub alpha: Scalar,
}

impl BackgroundColor {
    /// No colour at all: every part is `0.0`.
    pub open spec fn none() -> BackgroundColor {
        BackgroundColor {
            red: Scalar { bits: ZERO },
            green: Scalar { bits: ZERO },
            blue: Scalar { bits: ZERO },
            alpha: Scalar { bits: ZERO },
        }
    }
}

impl Default for BackgroundColor {
    fn default() -> (color: Self)
        ensures
            color == BackgroundColor::none(),
    {
        BackgroundColor {
            red: Scalar { bits: ZERO },
            green: Scalar { bits: ZERO },
            blue: Scalar { bits: ZERO },
            alpha: Scalar { bits: ZERO },
        }
    }
}

/// A node: its background and its style.
#[derive(Clone, Copy, Debug, PartialEq, Eq, Structural)]
pub struct NodeBundle {
    pub background_color: BackgroundColor,
    pub style: Style,
}

impl Default for NodeBundle {
    fn default() -> (node: Self)
        ensures
            node == (NodeBundle { background_color: BackgroundColor::none(), style: Style::plain() }),
    {
        NodeBundle { background_color: BackgroundColor::default(), style: Style::default() }
    }
}

/// The state of a loading bar: how far it has come, from `0.0` to `1.0`.
#[derive(Clone, Copy, Debug, PartialEq, Eq, Structural)]
pub struct LoadingBarWidget {
    progress: Scalar,
}

impl View for LoadingBarWidget {
    type V = Scalar;

    /// The progress of the bar.
    closed spec fn view(&self) -> Scalar {
        self.progress
    }
}

/// Marker component for the inner box of the loading bar.
#[derive(Clone, Copy, Debug, PartialEq, Eq, Structural)]
pub struct LoadingBarInner;

impl Default for LoadingBarInner {
    fn default() -> (inner: Self)
        ensures
            inner == LoadingBarInner,
    {
        LoadingBarInner
    }
}

impl LoadingBarWidget {
    /// Creates a new [`LoadingBarWidget`].
    pub fn new(progress: Scalar) -> (widget: Self)
        ensures
            widget@ == progress,
    {
        LoadingBarWidget { progress }
    }

    /// The progress of the bar.
    pub fn get_progress(&self) -> (progress: Scalar)
        ensures
            progress == self@,
    {
        self.progress
    }

    /// Sets the progress if it lies between `0.0` and `1.0`, both included,
    /// and says whether it did. A value out of that range, a NaN among
    /// them, changes nothing and is worth a warning.
    pub fn set_progress(&mut self, progress: Scalar) -> (taken: bool)
        ensures
            taken == progress.in_unit_interval(),
            taken ==> final(self)@ == progress,
            !taken ==> final(self)@ == old(self)@,
    {
        if progress.is_in_unit_interval() {
            self.progress = progress;
            true
        } else {
            false
        }
    }
}

impl Default for LoadingBarWidget {
    /// A bar that has not begun: its progress is `0.0`.
    fn default() -> (widget: Self)
        ensures
            widget@ == (Scalar { bits: ZERO }),
    {
        LoadingBarWidget { progress: Scalar { bits: ZERO } }
    }
}

/// The outer node of a loading bar.
#[derive(Clone, Copy, Debug, PartialEq, Eq, Structural)]
pub struct LoadingBarWidgetBundle {
    pub node_bundle: NodeBundle,
    pub loading_bar: LoadingBarWidget,
}

/// The inner box of a loading bar.
#[derive(Clone, Copy, Debug, PartialEq, Eq, Structural)]
pub struct LoadingBarWidgetInnerBundle {
    pub node_bundle: NodeBundle,
    pub loading_bar: LoadingBarInner,
}

impl LoadingBarWidgetBundle {
    /// A bar of the given size and background that has not begun. Its
    /// children start at the start of the main axis and are centred on the
    /// other.
    pub fn new(size: Size, background_color: BackgroundColor) -> (bundle: Self)
        ensures
            bundle.node_bundle == (NodeBundle {
                background_color,
                style: Style {
                    size,
                    justify_content: JustifyContent::FlexStart,
                    align_items: AlignItems::Center,
                    ..Style::plain()
                },
            }),
            bundle.loading_bar@ == (Scalar { bits: ZERO }),
    {
        let mut style = Style::default();
        style.size = size;
        style.justify_content = JustifyContent::FlexStart;
        style.align_items = AlignItems::Center;
        LoadingBarWidgetBundle {
            node_bundle: NodeBundle { background_color, style },
            loading_bar: LoadingBarWidget::default(),
        }
    }
}

impl LoadingBarWidgetInnerBundle {
    /// An inner box of the given background: half as wide as the bar, as
    /// high as the bar, and placed on its own.
    pub fn new(background_color: BackgroundColor) -> (bundle: Self)
        ensures
            bundle == (LoadingBarWidgetInnerBundle {
                node_bundle: NodeBundle {
                    background_color,
                    style: Style {
                        size: Size {
                            width: Val::Percent(Scalar { bits: FIFTY }),
                            height: Val::Percent(Scalar { bits: HUNDRED }),
                        },
                        position_type: PositionType::Absolute,
                        ..Style::plain()
                    },
                },
                loading_bar: LoadingBarInner,
            }),
    {
        let mut style = Style::default();
        style.size = Size::new(
            Val::Percent(Scalar { bits: FIFTY }),
            Val::Percent(Scalar { bits: HUNDRED }),
        );
        style.position_type = PositionType::Absolute;
        LoadingBarWidgetInnerBundle {
            node_bundle: NodeBundle { background_color, style },
            loading_bar: LoadingBarInner::default(),
        }
    }
}

} // verus!
