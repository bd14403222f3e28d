//! The style value that the utilities write to.
//!
//! A [`Style`] has one optional slot per property. Its view is the map from
//! each property that has been set to the value it was set to; every setter is
//! specified as a write to that map (see [`written`]).

use vstd::prelude::*;
use crate::colors::Color;
use crate::shadow::BoxShadow;
use crate::units::{CursorStyle, Display, FlexDirection, FlexWrap, Length};

verus! {

/// A property of a style.
#[derive(Clone, Copy, Debug, PartialEq, Eq, Structural)]
pub enum Prop {
    Width,
    Height,
    MinWidth,
    MaxWidth,
    PaddingLeft,
    PaddingTop,
    PaddingRight,
    PaddingBottom,
    MarginLeft,
    MarginTop,
    MarginRight,
    MarginBottom,
    Gap,
    Border,
    BorderColor,
    BorderRadius,
    Background,
    TextColor,
    FontSize,
    FontWeight,
    LineHeight,
    BoxShadows,
    Display,
    FlexDirection,
    FlexWrap,
    Cursor,
}

/// A value that a property can hold.
pub enum Value {
    /// A length, for properties that accept percentages or `auto`.
    Length(Length),
    /// Whole pixels.
    Px(u32),
    /// Thousandths of a base quantity.
    Scale(u32),
    /// A font weight.
    Weight(u16),
    /// A colour.
    Color(Color),
    /// A list of shadows.
    Shadows(Seq<BoxShadow>),
    /// A layout mode.
    Display(Display),
    /// A flex axis.
    FlexDirection(FlexDirection),
    /// A flex wrapping mode.
    FlexWrap(FlexWrap),
    /// A pointer shape.
    Cursor(CursorStyle),
}

impl Prop {
    /// Whether `value` is of the kind that this property holds.
    pub open spec fn accepts(self, value: Value) -> bool {
        match self {
            Prop::Width
            | Prop::Height
            | Prop::MinWidth
            | Prop::MaxWidth
            | Prop::MarginLeft
            | Prop::MarginTop
            | Prop::MarginRight
            | Prop::MarginBottom => value is Length,
            Prop::PaddingLeft
            | Prop::PaddingTop
            | Prop::PaddingRight
            | Prop::PaddingBottom
            | Prop::Gap
            | Prop::Border
            | Prop::BorderRadius
            | Prop::FontSize => value is Px,
            Prop::BorderColor | Prop::Background | Prop::TextColor => value is Color,
            Prop::FontWeight => value is Weight,
            Prop::LineHeight => value is Scale,
            Prop::BoxShadows => value is Shadows,
            Prop::Display => value is Display,
            Prop::FlexDirection => value is FlexDirection,
            Prop::FlexWrap => value is FlexWrap,
            Prop::Cursor => value is Cursor,
        }
    }
}

/// The properties as they are after `value` has been written to every
/// property in `targets`: those hold `value`, and every other property is as
/// it was in `before`, set or not.
pub open spec fn written(before: Map<Prop, Value>, targets: Set<Prop>, value: Value) -> Map<
    Prop,
    Value,
> {
    Map::new(
        |p: Prop| targets.contains(p) || before.dom().contains(p),
        |p: Prop|
            if targets.contains(p) {
                value
            } else {
                before[p]
            },
    )
}

/// A set of style properties, each either unset or set to a value.
#[derive(Clone, Debug, PartialEq)]
pub struct Style {
    /// Width.
    pub width: Option<Length>,
    /// Height.
    pub height: Option<Length>,
    /// Least width.
    pub min_width: Option<Length>,
    /// Greatest width.
    pub max_width: Option<Length>,
    /// Padding on the left, in pixels.
    pub padding_left: Option<u32>,
    /// Padding at the top, in pixels.
    pub padding_top: Option<u32>,
    /// Padding on the right, in pixels.
    pub padding_right: Option<u32>,
    /// Padding at the bottom, in pixels.
    pub padding_bottom: Option<u32>,
    /// Margin on the left.
    pub margin_left: Option<Length>,
    /// Margin at the top.
    pub margin_top: Option<Length>,
    /// Margin on the right.
    pub margin_right: Option<Length>,
    /// Margin at the bottom.
    pub margin_bottom: Option<Length>,
    /// Gap between children, in pixels.
    pub gap: Option<u32>,
    /// Width of the border on all sides, in pixels.
    pub border: Option<u32>,
    /// Colour of the border.
    pub border_color: Option<Color>,
    /// Radius of the corners, in pixels.
    pub border_radius: Option<u32>,
    /// Colour of the background.
    pub background: Option<Color>,
    /// Colour of the text.
    pub color: Option<Color>,
    /// Size of the font, in pixels.
    pub font_size: Option<u32>,
    /// Weight of the font, from 100 (thin) to 900 (black).
    pub font_weight: Option<u16>,
    /// Height of a line, in thousandths of the font size.
    pub line_height: Option<u32>,
    /// Shadows cast by the box, bottom-most first.
    pub box_shadows: Option<Vec<BoxShadow>>,
    /// Layout mode.
    pub display: Option<Display>,
    /// Main axis of a flex container.
    pub flex_direction: Option<FlexDirection>,
    /// Wrapping of a flex container's children.
    pub flex_wrap: Option<FlexWrap>,
    /// Pointer shown over the element.
    pub cursor: Option<CursorStyle>,
}

impl View for Style {
    type V = Map<Prop, Value>;

    /// The properties that are set, each with its value.
    open spec fn view(&self) -> Map<Prop, Value> {
        Map::new(|p: Prop| self.lookup(p) is Some, |p: Prop| self.lookup(p)->0)
    }
}

impl Style {
    /// What property `p` is set to, if it is set.
    pub open spec fn lookup(&self, p: Prop) -> Option<Value> {
        match p {
            Prop::Width => match self.width {
                Some(x) => Some(Value::Length(x)),
                None => None,
            },
            Prop::Height => match self.height {
                Some(x) => Some(Value::Length(x)),
                None => None,
            },
            Prop::MinWidth => match self.min_width {
                Some(x) => Some(Value::Length(x)),
                None => None,
            },
            Prop::MaxWidth => match self.max_width {
                Some(x) => Some(Value::Length(x)),
                None => None,
            },
            Prop::PaddingLeft => match self.padding_left {
                Some(x) => Some(Value::Px(x)),
                None => None,
            },
            Prop::PaddingTop => match self.padding_top {
                Some(x) => Some(Value::Px(x)),
                None => None,
            },
            Prop::PaddingRight => match self.padding_right {
                Some(x) => Some(Value::Px(x)),
                None => None,
            },
            Prop::PaddingBottom => match self.padding_bottom {
                Some(x) => Some(Value::Px(x)),
                None => None,
            },
            Prop::MarginLeft => match self.margin_left {
                Some(x) => Some(Value::Length(x)),
                None => None,
            },
            Prop::MarginTop => match self.margin_top {
                Some(x) => Some(Value::Length(x)),
                None => None,
            },
            Prop::MarginRight => match self.margin_right {
                Some(x) => Some(Value::Length(x)),
                None => None,
            },
            Prop::MarginBottom => match self.margin_bottom {
                Some(x) => Some(Value::Length(x)),
                None => None,
            },
            Prop::Gap => match self.gap {
                Some(x) => Some(Value::Px(x)),
                None => None,
            },
            Prop::Border => match self.border {
                Some(x) => Some(Value::Px(x)),
                None => None,
            },
            Prop::BorderColor => match self.border_color {
                Some(x) => Some(Value::Color(x)),
                None => None,
            },
            Prop::BorderRadius => match self.border_radius {
                Some(x) => Some(Value::Px(x)),
                None => None,
            },
            Prop::Background => match self.background {
                Some(x) => Some(Value::Color(x)),
                None => None,
            },
            Prop::TextColor => match self.color {
                Some(x) => Some(Value::Color(x)),
                None => None,
            },
            Prop::FontSize => match self.font_size {
                Some(x) => Some(Value::Px(x)),
                None => None,
            },
            Prop::FontWeight => match self.font_weight {
                Some(x) => Some(Value::Weight(x)),
                None => None,
            },
            Prop::LineHeight => match self.line_height {
                Some(x) => Some(Value::Scale(x)),
                None => None,
            },
            Prop::BoxShadows => match self.box_shadows {
                Some(x) => Some(Value::Shadows(x@)),
                None => None,
            },
            Prop::Display => match self.display {
                Some(x) => Some(Value::Display(x)),
                None => None,
            },
            Prop::FlexDirection => match self.flex_direction {
                Some(x) => Some(Value::FlexDirection(x)),
                None => None,
            },
            Prop::FlexWrap => match self.flex_wrap {
                Some(x) => Some(Value::FlexWrap(x)),
                None => None,
            },
            Prop::Cursor => match self.cursor {
                Some(x) => Some(Value::Cursor(x)),
                None => None,
            },
        }
    }

    /// The view holds a property exactly if its slot is filled, and holds
    /// what the slot holds.
    pub proof fn lemma_view_reads_slots(self, p: Prop)
        ensures
            self@.dom().contains(p) == (self.lookup(p) is Some),
            self.lookup(p) is Some ==> self@[p] == self.lookup(p)->0,
    {
    }

    /// Every property that is set holds a value of its own kind.
    pub proof fn lemma_values_fit(self, p: Prop)
        requires
            self@.dom().contains(p),
        ensures
            p.accepts(self@[p]),
    {
    }

    /// A style with no property set.
    pub fn new() -> (out: Self)
        ensures
            out@ == Map::<Prop, Value>::empty(),
    {
        let out = Style {
            width: None,
            height: None,
            min_width: None,
            max_width: None,
            padding_left: None,
            padding_top: None,
            padding_right: None,
            padding_bottom: None,
            margin_left: None,
            margin_top: None,
            margin_right: None,
            margin_bottom: None,
            gap: None,
            border: None,
            border_color: None,
            border_radius: None,
            background: None,
            color: None,
            font_size: None,
            font_weight: None,
            line_height: None,
            box_shadows: None,
            display: None,
            flex_direction: None,
            flex_wrap: None,
            cursor: None,
        };
        assert(out@ =~= Map::<Prop, Value>::empty());
        out
    }

    /// Sets the width.
    pub fn width(self, value: Length) -> (out: Self)
        ensures
            out@ == written(self@, set![Prop::Width], Value::Length(value)),
    {
        let out = Style { width: Some(value), ..self };
        assert(out@ =~= written(self@, set![Prop::Width], Value::Length(value)));
        out
    }

    /// Sets the height.
    pub fn height(self, value: Length) -> (out: Self)
        ensures
            out@ == written(self@, set![Prop::Height], Value::Length(value)),
    {
        let out = Style { height: Some(value), ..self };
        assert(out@ =~= written(self@, set![Prop::Height], Value::Length(value)));
        out
    }

    /// Sets the least width.
    pub fn min_width(self, value: Length) -> (out: Self)
        ensures
            out@ == written(self@, set![Prop::MinWidth], Value::Length(value)),
    {
        let out = Style { min_width: Some(value), ..self };
        assert(out@ =~= written(self@, set![Prop::MinWidth], Value::Length(value)));
        out
    }

    /// Sets the greatest width.
    pub fn max_width(self, value: Length) -> (out: Self)
        ensures
            out@ == written(self@, set![Prop::MaxWidth], Value::Length(value)),
    {
        let out = Style { max_width: Some(value), ..self };
        assert(out@ =~= written(self@, set![Prop::MaxWidth], Value::Length(value)));
        out
    }

    /// Sets the padding on all four sides.
    pub fn padding(self, value: u32) -> (out: Self)
        ensures
            out@ == written(
                self@,
                set![Prop::PaddingLeft, Prop::PaddingTop, Prop::PaddingRight, Prop::PaddingBottom],
                Value::Px(value),
            ),
    {
        let ghost targets =
            set![Prop::PaddingLeft, Prop::PaddingTop, Prop::PaddingRight, Prop::PaddingBottom];
        let out = self.padding_horiz(value).padding_vert(value);
        assert(out@ =~= written(self@, targets, Value::Px(value)));
        out
    }

    /// Sets the padding on the left and on the right.
    pub fn padding_horiz(self, value: u32) -> (out: Self)
        ensures
            out@ == written(self@, set![Prop::PaddingLeft, Prop::PaddingRight], Value::Px(value)),
    {
        let ghost targets = set![Prop::PaddingLeft, Prop::PaddingRight];
        let out = self.padding_left(value).padding_right(value);
        assert(out@ =~= written(self@, targets, Value::Px(value)));
        out
    }

    /// Sets the padding at the top and at the bottom.
    pub fn padding_vert(self, value: u32) -> (out: Self)
        ensures
            out@ == written(self@, set![Prop::PaddingTop, Prop::PaddingBottom], Value::Px(value)),
    {
        let ghost targets = set![Prop::PaddingTop, Prop::PaddingBottom];
        let out = self.padding_top(value).padding_bottom(value);
        assert(out@ =~= written(self@, targets, Value::Px(value)));
        out
    }

    /// Sets the padding on the left.
    pub fn padding_left(self, value: u32) -> (out: Self)
        ensures
            out@ == written(self@, set![Prop::PaddingLeft], Value::Px(value)),
    {
        let out = Style { padding_left: Some(value), ..self };
        assert(out@ =~= written(self@, set![Prop::PaddingLeft], Value::Px(value)));
        out
    }

    /// Sets the padding at the top.
    pub fn padding_top(self, value: u32) -> (out: Self)
        ensures
            out@ == written(self@, set![Prop::PaddingTop], Value::Px(value)),
    {
        let out = Style { padding_top: Some(value), ..self };
        assert(out@ =~= written(self@, set![Prop::PaddingTop], Value::Px(value)));
        out
    }

    /// Sets the padding on the right.
    pub fn padding_right(self, value: u32) -> (out: Self)
        ensures
            out@ == written(self@, set![Prop::PaddingRight], Value::Px(value)),
    {
        let out = Style { padding_right: Some(value), ..self };
        assert(out@ =~= written(self@, set![Prop::PaddingRight], Value::Px(value)));
        out
    }

    /// Sets the padding at the bottom.
    pub fn padding_bottom(self, value: u32) -> (out: Self)
        ensures
            out@ == written(self@, set![Prop::PaddingBottom], Value::Px(value)),
    {
        let out = Style { padding_bottom: Some(value), ..self };
        assert(out@ =~= written(self@, set![Prop::PaddingBottom], Value::Px(value)));
        out
    }

    /// Sets the margin on all four sides.
    pub fn margin(self, value: Length) -> (out: Self)
        ensures
            out@ == written(
                self@,
                set![Prop::MarginLeft, Prop::MarginTop, Prop::MarginRight, Prop::MarginBottom],
                Value::Length(value),
            ),
    {
        let ghost targets =
            set![Prop::MarginLeft, Prop::MarginTop, Prop::MarginRight, Prop::MarginBottom];
        let out = self.margin_horiz(value).margin_vert(value);
        assert(out@ =~= written(self@, targets, Value::Length(value)));
        out
    }

    /// Sets the margin on the left and on the right.
    pub fn margin_horiz(self, value: Length) -> (out: Self)
        ensures
            out@ == written(self@, set![Prop::MarginLeft, Prop::MarginRight], Value::Length(value)),
    {
        let ghost targets = set![Prop::MarginLeft, Prop::MarginRight];
        let out = self.margin_left(value).margin_right(value);
        assert(out@ =~= written(self@, targets, Value::Length(value)));
        out
    }

    /// Sets the margin at the top and at the bottom.
    pub fn margin_vert(self, value: Length) -> (out: Self)
        ensures
            out@ == written(self@, set![Prop::MarginTop, Prop::MarginBottom], Value::Length(value)),
    {
        let ghost targets = set![Prop::MarginTop, Prop::MarginBottom];
        let out = self.margin_top(value).margin_bottom(value);
        assert(out@ =~= written(self@, targets, Value::Length(value)));
        out
    }

    /// Sets the margin on the left.
    pub fn margin_left(self, value: Length) -> (out: Self)
        ensures
            out@ == written(self@, set![Prop::MarginLeft], Value::Length(value)),
    {
        let out = Style { margin_left: Some(value), ..self };
        assert(out@ =~= written(self@, set![Prop::MarginLeft], Value::Length(value)));
        out
    }

    /// Sets the margin at the top.
    pub fn margin_top(self, value: Length) -> (out: Self)
        ensures
            out@ == written(self@, set![Prop::MarginTop], Value::Length(value)),
    {
        let out = Style { margin_top: Some(value), ..self };
        assert(out@ =~= written(self@, set![Prop::MarginTop], Value::Length(value)));
        out
    }

    /// Sets the margin on the right.
    pub fn margin_right(self, value: Length) -> (out: Self)
        ensures
            out@ == written(self@, set![Prop::MarginRight], Value::Length(value)),
    {
        let out = Style { margin_right: Some(value), ..self };
        assert(out@ =~= written(self@, set![Prop::MarginRight], Value::Length(value)));
        out
    }

    /// Sets the margin at the bottom.
    pub fn margin_bottom(self, value: Length) -> (out: Self)
        ensures
            out@ == written(self@, set![Prop::MarginBottom], Value::Length(value)),
    {
        let out = Style { margin_bottom: Some(value), ..self };
        assert(out@ =~= written(self@, set![Prop::MarginBottom], Value::Length(value)));
        out
    }

    /// Sets the gap between children.
    pub fn gap(self, value: u32) -> (out: Self)
        ensures
            out@ == written(self@, set![Prop::Gap], Value::Px(value)),
    {
        let out = Style { gap: Some(value), ..self };
        assert(out@ =~= written(self@, set![Prop::Gap], Value::Px(value)));
        out
    }

    /// Sets the width of the border on all sides.
    pub fn border(self, value: u32) -> (out: Self)
        ensures
            out@ == written(self@, set![Prop::Border], Value::Px(value)),
    {
        let out = Style { border: Some(value), ..self };
        assert(out@ =~= written(self@, set![Prop::Border], Value::Px(value)));
        out
    }

    /// Sets the colour of the border.
    pub fn border_color(self, value: Color) -> (out: Self)
        ensures
            out@ == written(self@, set![Prop::BorderColor], Value::Color(value)),
    {
        let out = Style { border_color: Some(value), ..self };
        assert(out@ =~= written(self@, set![Prop::BorderColor], Value::Color(value)));
        out
    }

    /// Sets the radius of the corners.
    pub fn border_radius(self, value: u32) -> (out: Self)
        ensures
            out@ == written(self@, set![Prop::BorderRadius], Value::Px(value)),
    {
        let out = Style { border_radius: Some(value), ..self };
        assert(out@ =~= written(self@, set![Prop::BorderRadius], Value::Px(value)));
        out
    }

    /// Sets the colour of the background.
    pub fn background(self, value: Color) -> (out: Self)
        ensures
            out@ == written(self@, set![Prop::Background], Value::Color(value)),
    {
        let out = Style { background: Some(value), ..self };
        assert(out@ =~= written(self@, set![Prop::Background], Value::Color(value)));
        out
    }

    /// Sets the colour of the text.
    pub fn color(self, value: Color) -> (out: Self)
        ensures
            out@ == written(self@, set![Prop::TextColor], Value::Color(value)),
    {
        let out = Style { color: Some(value), ..self };
        assert(out@ =~= written(self@, set![Prop::TextColor], Value::Color(value)));
        out
    }

    /// Sets the size of the font.
    pub fn font_size(self, value: u32) -> (out: Self)
        ensures
            out@ == written(self@, set![Prop::FontSize], Value::Px(value)),
    {
        let out = Style { font_size: Some(value), ..self };
        assert(out@ =~= written(self@, set![Prop::FontSize], Value::Px(value)));
        out
    }

    /// Sets the weight of the font.
    pub fn font_weight(self, value: u16) -> (out: Self)
        ensures
            out@ == written(self@, set![Prop::FontWeight], Value::Weight(value)),
    {
        let out = Style { font_weight: Some(value), ..self };
        assert(out@ =~= written(self@, set![Prop::FontWeight], Value::Weight(value)));
        out
    }

    /// Sets the height of a line, in thousandths of the font size.
    pub fn line_height(self, value: u32) -> (out: Self)
        ensures
            out@ == written(self@, set![Prop::LineHeight], Value::Scale(value)),
    {
        let out = Style { line_height: Some(value), ..self };
        assert(out@ =~= written(self@, set![Prop::LineHeight], Value::Scale(value)));
        out
    }

    /// Replaces the list of shadows; an empty list removes them all.
    pub fn apply_box_shadows(self, value: Vec<BoxShadow>) -> (out: Self)
        ensures
            out@ == written(self@, set![Prop::BoxShadows], Value::Shadows(value@)),
    {
        let ghost list = value@;
        let out = Style { box_shadows: Some(value), ..self };
        assert(out@ =~= written(self@, set![Prop::BoxShadows], Value::Shadows(list)));
        out
    }

    /// Sets the layout mode.
    pub fn display(self, value: Display) -> (out: Self)
        ensures
            out@ == written(self@, set![Prop::Display], Value::Display(value)),
    {
        let out = Style { display: Some(value), ..self };
        assert(out@ =~= written(self@, set![Prop::Display], Value::Display(value)));
        out
    }

    /// Sets the main axis of a flex container.
    pub fn flex_direction(self, value: FlexDirection) -> (out: Self)
        ensures
            out@ == written(self@, set![Prop::FlexDirection], Value::FlexDirection(value)),
    {
        let out = Style { flex_direction: Some(value), ..self };
        assert(out@ =~= written(self@, set![Prop::FlexDirection], Value::FlexDirection(value)));
        out
    }

    /// Sets how a flex container's children wrap.
    pub fn flex_wrap(self, value: FlexWrap) -> (out: Self)
        ensures
            out@ == written(self@, set![Prop::FlexWrap], Value::FlexWrap(value)),
    {
        let out = Style { flex_wrap: Some(value), ..self };
        assert(out@ =~= written(self@, set![Prop::FlexWrap], Value::FlexWrap(value)));
        out
    }

    /// Sets the pointer shown over the element.
    pub fn cursor(self, value: CursorStyle) -> (out: Self)
        ensures
            out@ == written(self@, set![Prop::Cursor], Value::Cursor(value)),
    {
        let out = Style { cursor: Some(value), ..self };
        assert(out@ =~= written(self@, set![Prop::Cursor], Value::Cursor(value)));
        out
    }
}

} // verus!
