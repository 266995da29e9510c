//! A terminal user interface toolkit: widget states, layout computations and the
//! pixel-map transformations used to draw widgets, with their behaviour stated and
//! proved in contracts.

pub mod pixel;
pub mod helpers;
pub mod scheduler;
pub mod definitions;
pub mod table;
pub mod geometry;
pub mod strings;
pub mod text_input;
pub mod state;
pub mod checkbox;
pub mod radio_button;
pub mod slider;
pub mod progress_bar;
pub mod button;
pub mod dropdown;
pub mod layout;
pub mod tabs;
pub mod text;
pub mod wrap;
pub mod button_contents;
pub mod box_mode;
pub mod float_mode;
pub mod canvas;
pub mod label;
pub mod stack_mode;
pub mod keys;
pub mod callbacks;
pub mod events;
pub mod children;
pub mod widget_contents;
pub mod modals;
pub mod layout_state;
pub mod widgets;
