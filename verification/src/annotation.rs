//! Reading the `code` annotation of one variant.
use vstd::prelude::*;
use vstd::string::*;
use crate::conversion::StatusCode;
use crate::diagnostic::Fault;
use crate::model::{
    annotation_views, Annotation, AnnotationShape, AnnotationView, ItemView, NestedItem, ShapeView,
};

verus! {

/// Whether an annotation carries the reserved tag `code`: its path is
/// that one identifier.
pub open spec fn has_code_tag(annotation: AnnotationView) -> bool {
    annotation.path == "code"@
}

/// The code that an annotation of a given form names. The annotation must
/// be a list of exactly one item, and that item a bare identifier, that
/// is a path of exactly one segment with no `::` before it: the segment is
/// the code.
pub open spec fn shape_code(shape: ShapeView) -> Result<Seq<char>, Fault> {
    match shape {
        ShapeView::List { items } => {
            if items.len() != 1 {
                Err(Fault::WrongItemCount)
            } else {
                match items[0] {
                    ItemView::Path { leading_colon, segments } => {
                        if !leading_colon && segments.len() == 1 {
                            Ok(segments[0])
                        } else {
                            Err(Fault::PathNotBare)
                        }
                    },
                    _ => Err(Fault::NotAPath),
                }
            }
        },
        _ => Err(Fault::NotAList),
    }
}

/// The code that an annotation names.
pub open spec fn annotation_code(annotation: AnnotationView) -> Result<Seq<char>, Fault> {
    shape_code(annotation.shape)
}

/// Whether annotation `j` is the first that carries the tag `code`.
pub open spec fn is_first_code(annotations: Seq<AnnotationView>, j: int) -> bool {
    &&& 0 <= j < annotations.len()
    &&& has_code_tag(annotations[j])
    &&& forall|k: int| 0 <= k < j ==> !has_code_tag(#[trigger] annotations[k])
}

/// Whether no annotation carries the tag `code`.
pub open spec fn lacks_code(annotations: Seq<AnnotationView>) -> bool {
    forall|k: int| 0 <= k < annotations.len() ==> !has_code_tag(#[trigger] annotations[k])
}

/// The position of the first annotation tagged `code`, if there is one.
pub open spec fn code_position(annotations: Seq<AnnotationView>) -> Option<int> {
    if lacks_code(annotations) {
        None
    } else {
        Some(choose|j: int| is_first_code(annotations, j))
    }
}

/// Where an annotation is tagged `code`, one of them is the first.
pub proof fn first_code_exists(annotations: Seq<AnnotationView>, n: int)
    requires
        0 <= n < annotations.len(),
        has_code_tag(annotations[n]),
    ensures
        exists|j: int| is_first_code(annotations, j),
    decreases n,
{
    if !is_first_code(annotations, n) {
        let k = choose|k: int| 0 <= k < n && has_code_tag(#[trigger] annotations[k]);
        first_code_exists(annotations, k);
    }
}

/// An annotation that is the first tagged `code` is the code position.
pub proof fn first_code_is_position(annotations: Seq<AnnotationView>, j: int)
    requires
        is_first_code(annotations, j),
    ensures
        code_position(annotations) == Some(j),
{
    assert(has_code_tag(annotations[j]));
    let c = choose|c: int| is_first_code(annotations, c);
    assert(is_first_code(annotations, c));
    if c < j {
        assert(!has_code_tag(annotations[c]));
    }
    if j < c {
        assert(!has_code_tag(annotations[j]));
    }
}

impl Annotation {
    /// Whether the annotation carries the reserved tag `code`.
    pub fn is_code(&self) -> (yes: bool)
        ensures
            yes == has_code_tag(self@),
    {
        let reserved = String::from_str("code");
        self.path == reserved
    }
}

/// Finds the first annotation tagged `code`.
pub fn find_code_annotation(annotations: &Vec<Annotation>) -> (found: Option<usize>)
    ensures
        match found {
            Some(j) => is_first_code(annotation_views(annotations@), j as int) && code_position(
                annotation_views(annotations@),
            ) == Some(j as int),
            None => lacks_code(annotation_views(annotations@)) && code_position(
                annotation_views(annotations@),
            ) is None,
        },
{
    let mut j: usize = 0;
    while j < annotations.len()
        invariant
            j <= annotations.len(),
            forall|k: int|
                0 <= k < j ==> !has_code_tag(#[trigger] annotation_views(annotations@)[k]),
        decreases annotations.len() - j,
    {
        if annotations[j].is_code() {
            proof {
                first_code_is_position(annotation_views(annotations@), j as int);
            }
            return Some(j);
        }
        j += 1;
    }
    None
}

/// Reads the status code out of a `code` annotation, or says what is wrong
/// with the annotation. The path of the annotation is not looked at.
pub fn parse_code_attr(attr: &Annotation) -> (parsed: Result<StatusCode, Fault>)
    ensures
        match parsed {
            Ok(code) => annotation_code(attr@) == Ok::<Seq<char>, Fault>(code@),
            Err(fault) => annotation_code(attr@) == Err::<Seq<char>, Fault>(fault),
        },
{
    match &attr.shape {
        AnnotationShape::List { items } => {
            if items.len() != 1 {
                return Err(Fault::WrongItemCount);
            }
            match &items[0] {
                NestedItem::Path { leading_colon, segments } => {
                    if !*leading_colon && segments.len() == 1 {
                        Ok(StatusCode { ident: segments[0].clone() })
                    } else {
                        Err(Fault::PathNotBare)
                    }
                },
                _ => Err(Fault::NotAPath),
            }
        },
        _ => Err(Fault::NotAList),
    }
}

} // verus!
