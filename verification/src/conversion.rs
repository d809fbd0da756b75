//! The generated conversion: one arm per variant, each giving a status code.
use vstd::prelude::*;
use vstd::string::*;

verus! {

/// A status code of the protocol, referred to by its identifier.
#[derive(Clone, Debug, PartialEq, Eq)]
pub struct StatusCode {
    pub ident: String,
}

impl View for StatusCode {
    type V = Seq<char>;

    open spec fn view(&self) -> Seq<char> {
        self.ident@
    }
}

/// The model of an [`Arm`].
pub struct ArmView {
    pub variant: Seq<char>,
    pub code: Seq<char>,
}

/// One arm of the conversion: values of `variant` get the status `code`.
#[derive(Clone, Debug, PartialEq, Eq)]
pub struct Arm {
    pub variant: String,
    pub code: StatusCode,
}

impl View for Arm {
    type V = ArmView;

    open spec fn view(&self) -> ArmView {
        ArmView { variant: self.variant@, code: self.code@ }
    }
}

/// The model of a [`GeneratedConversion`].
pub struct ConversionView {
    pub enum_name: Seq<char>,
    pub arms: Seq<ArmView>,
}

/// The model of a [`ProtocolStatus`].
pub struct StatusView {
    pub code: Seq<char>,
    pub message: Seq<char>,
}

/// What a remote caller is told about a failure.
#[derive(Clone, Debug, PartialEq, Eq)]
pub struct ProtocolStatus {
    pub code: StatusCode,
    pub message: String,
}

impl View for ProtocolStatus {
    type V = StatusView;

    open spec fn view(&self) -> StatusView {
        StatusView { code: self.code@, message: self.message@ }
    }
}

/// A value of an error enumeration, as far as a conversion looks at it: which
/// variant it is, counted from zero in declaration order, and its display
/// text. The values of its fields play no part.
#[derive(Clone, Debug, PartialEq, Eq)]
pub struct ErrorValue {
    pub variant: usize,
    pub display: String,
}

/// The conversion from an error enumeration to statuses. Arm `i` serves
/// variant `i` of the enumeration.
#[derive(Clone, Debug, PartialEq, Eq)]
pub struct GeneratedConversion {
    pub enum_name: String,
    pub arms: Vec<Arm>,
}

impl View for GeneratedConversion {
    type V = ConversionView;

    open spec fn view(&self) -> ConversionView {
        ConversionView {
            enum_name: self.enum_name@,
            arms: Seq::new(self.arms@.len(), |i: int| self.arms@[i]@),
        }
    }
}

/// The status that a conversion gives a value of variant `variant` whose
/// display text is `text`: the code of that variant's arm, and the text as
/// the message. A variant without an arm gets none.
pub open spec fn status_of(conversion: ConversionView, variant: int, text: Seq<char>) -> Option<
    StatusView,
> {
    if 0 <= variant < conversion.arms.len() {
        Some(StatusView { code: conversion.arms[variant].code, message: text })
    } else {
        None
    }
}

/// The source text of one arm.
pub open spec fn arm_text(enum_name: Seq<char>, arm: ArmView) -> Seq<char> {
    "            "@ + enum_name + "::"@ + arm.variant
        + " { .. } => ::tonic::Status::new(::tonic::Code::"@ + arm.code
        + ", format!(\"{}\", err)),\n"@
}

/// The source text of the arms, in order.
pub open spec fn arms_text(enum_name: Seq<char>, arms: Seq<ArmView>) -> Seq<char>
    decreases arms.len(),
{
    if arms.len() == 0 {
        Seq::empty()
    } else {
        arms_text(enum_name, arms.drop_last()) + arm_text(enum_name, arms.last())
    }
}

/// The source text of a conversion: an implementation of `From` for the
/// status type whose body matches on the error value, one arm per variant
/// and no fallback arm.
pub open spec fn source_text(conversion: ConversionView) -> Seq<char> {
    "impl From<"@ + conversion.enum_name + "> for ::tonic::Status {\n    fn from(err: "@
        + conversion.enum_name + ") -> ::tonic::Status {\n        match err {\n"@ + arms_text(
        conversion.enum_name,
        conversion.arms,
    ) + "        }\n    }\n}\n"@
}

impl StatusCode {
    /// The path by which generated source refers to the code.
    pub fn path(&self) -> (text: String)
        ensures
            text@ == "::tonic::Code::"@ + self@,
    {
        String::from_str("::tonic::Code::").concat(self.ident.as_str())
    }
}

impl Arm {
    /// The source text of the arm inside a match on a value of `enum_name`.
    pub fn render(&self, enum_name: &str) -> (text: String)
        ensures
            text@ == arm_text(enum_name@, self@),
    {
        let mut text = String::from_str("            ");
        text.append(enum_name);
        text.append("::");
        text.append(self.variant.as_str());
        text.append(" { .. } => ::tonic::Status::new(::tonic::Code::");
        text.append(self.code.ident.as_str());
        text.append(", format!(\"{}\", err)),\n");
        text
    }
}

impl GeneratedConversion {
    /// The status for a value of the error enumeration: `Some` exactly when
    /// the value's variant has an arm.
    pub fn status_for(&self, value: &ErrorValue) -> (status: Option<ProtocolStatus>)
        ensures
            match status {
                Some(s) => status_of(self@, value.variant as int, value.display@) == Some(s@),
                None => status_of(self@, value.variant as int, value.display@) is None,
            },
    {
        if value.variant < self.arms.len() {
            let code = StatusCode { ident: self.arms[value.variant].code.ident.clone() };
            Some(ProtocolStatus { code, message: value.display.clone() })
        } else {
            None
        }
    }

    /// The conversion as source text.
    pub fn render(&self) -> (text: String)
        ensures
            text@ == source_text(self@),
    {
        let mut text = String::from_str("impl From<");
        text.append(self.enum_name.as_str());
        text.append("> for ::tonic::Status {\n    fn from(err: ");
        text.append(self.enum_name.as_str());
        text.append(") -> ::tonic::Status {\n        match err {\n");
        let ghost head = text@;
        let mut i: usize = 0;
        while i < self.arms.len()
            invariant
                i <= self.arms.len(),
                text@ == head + arms_text(self.enum_name@, self@.arms.take(i as int)),
            decreases self.arms.len() - i,
        {
            let arm = self.arms[i].render(self.enum_name.as_str());
            proof {
                let next = self@.arms.take(i + 1);
                assert(next.drop_last() =~= self@.arms.take(i as int));
                assert(next.last() == self.arms@[i as int]@);
            }
            text.append(arm.as_str());
            i += 1;
        }
        proof {
            assert(self@.arms.take(i as int) =~= self@.arms);
        }
        text.append("        }\n    }\n}\n");
        text
    }
}

} // verus!
