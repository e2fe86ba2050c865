//! A button with a variant and a size: the inline style it is drawn with.

use vstd::prelude::*;

verus! {

/// What a button is for, which decides its colours.
#[derive(Debug, Clone, PartialEq)]
pub enum ButtonVariant {
    Primary,
    Secondary,
    Success,
    Warning,
    Danger,
}

/// How large a button is drawn.
#[derive(Debug, Clone, PartialEq)]
pub enum ButtonSize {
    Small,
    Medium,
    Large,
}

impl Default for ButtonSize {
    /// A button is of medium size unless told otherwise.
    fn default() -> (r: Self)
        ensures
            r == ButtonSize::Medium,
    {
        ButtonSize::Medium
    }
}

impl ButtonVariant {
    /// The colours of the variant, as CSS declarations.
    pub open spec fn style(self) -> Seq<char> {
        match self {
            ButtonVariant::Primary => "background: #007bff; color: white;"@,
            ButtonVariant::Secondary => "background: #6c757d; color: white;"@,
            ButtonVariant::Success => "background: #28a745; color: white;"@,
            ButtonVariant::Warning => "background: #ffc107; color: #212529;"@,
            ButtonVariant::Danger => "background: #dc3545; color: white;"@,
        }
    }
}

impl ButtonSize {
    /// The padding and the font size, as CSS declarations.
    pub open spec fn style(self) -> Seq<char> {
        match self {
            ButtonSize::Small => "padding: 6px 12px; font-size: 12px;"@,
            ButtonSize::Medium => "padding: 10px 20px; font-size: 14px;"@,
            ButtonSize::Large => "padding: 14px 28px; font-size: 16px;"@,
        }
    }
}

/// The declarations that every button shares.
pub open spec fn base_style() -> Seq<char> {
    "border: none; border-radius: 6px; font-weight: 500; cursor: pointer; display: inline-flex; align-items: center; gap: 8px; transition: all 0.2s;"@
}

/// The inline style of a button: the shared declarations, then those of the
/// variant, then those of the size.
pub fn button_style(variant: &ButtonVariant, size: &ButtonSize) -> (r: String)
    ensures
        r@ == base_style() + variant.style() + size.style(),
{
    let base_style =
        "border: none; border-radius: 6px; font-weight: 500; cursor: pointer; display: inline-flex; align-items: center; gap: 8px; transition: all 0.2s;";
    let variant_style = match variant {
        ButtonVariant::Primary => "background: #007bff; color: white;",
        ButtonVariant::Secondary => "background: #6c757d; color: white;",
        ButtonVariant::Success => "background: #28a745; color: white;",
        ButtonVariant::Warning => "background: #ffc107; color: #212529;",
        ButtonVariant::Danger => "background: #dc3545; color: white;",
    };
    let size_style = match size {
        ButtonSize::Small => "padding: 6px 12px; font-size: 12px;",
        ButtonSize::Medium => "padding: 10px 20px; font-size: 14px;",
        ButtonSize::Large => "padding: 14px 28px; font-size: 16px;",
    };
    String::from_str(base_style).concat(variant_style).concat(size_style)
}

} // verus!
