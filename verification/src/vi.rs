/*!
Virtual input, bundles of input states

# About

Virtual input is good for typical input abstraction. For example, your "select key" may be any
of enter, space, a gamepad button or even left click. Then the virtual input is perfect for
bundling them.

However, they are not generic enough. For example, you might want to handle left click in a
different way from enter key. Then you have to build your custom input system like UI commands,
maybe using virtual input.

# Lifecycle

Lifecycle types need to be `update`d when you update your game, once per frame. They see a
press or a release in the frame whose events brought it, until that frame is ended.

# Coordinate system

X axis goes from left to right. Y axis goes from up to down.

# Priority

Latest inputs always come as current state.
*/

pub mod axis_button;
pub mod bundle;
pub mod button;
pub mod repeat;

pub use self::axis_button::{AxisButton, AxisDirButton};
pub use self::bundle::{InputBundle, KeyEntry, RawButtonState};
pub use self::button::{Button, StrictButtonState};
pub use self::repeat::{KeyRepeatConfig, KeyRepeatState};
