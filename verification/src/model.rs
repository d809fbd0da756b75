//! The declaration of an error type, as the generator reads it.
use vstd::prelude::*;

verus! {

/// The model of a [`NestedItem`].
pub enum ItemView {
    Path { leading_colon: bool, segments: Seq<Seq<char>> },
    Literal,
    Nested,
}

/// The model of an [`AnnotationShape`].
pub enum ShapeView {
    Flag,
    KeyValue,
    List { items: Seq<ItemView> },
    Opaque,
}

/// One item between the parentheses of a list annotation.
#[derive(Clone, Debug, PartialEq, Eq)]
pub enum NestedItem {
    /// A path such as `NotFound`, `codes::NotFound` or `::NotFound`: whether
    /// it begins with `::`, and its segments, one string each.
    Path { leading_colon: bool, segments: Vec<String> },
    /// A literal such as `"NotFound"` or `5`.
    Literal,
    /// A list or a key-value pair nested in the list, such as `any(NotFound)`.
    Nested,
}

impl View for NestedItem {
    type V = ItemView;

    open spec fn view(&self) -> ItemView {
        match self {
            NestedItem::Path { leading_colon, segments } => ItemView::Path {
                leading_colon: *leading_colon,
                segments: Seq::new(segments@.len(), |i: int| segments@[i]@),
            },
            NestedItem::Literal => ItemView::Literal,
            NestedItem::Nested => ItemView::Nested,
        }
    }
}

/// The form in which an annotation is written.
#[derive(Clone, Debug, PartialEq, Eq)]
pub enum AnnotationShape {
    /// A bare tag: `#[code]`.
    Flag,
    /// A tag with a value: `#[code = "NotFound"]`.
    KeyValue,
    /// A tag with a parenthesized list: `#[code(NotFound)]`.
    List { items: Vec<NestedItem> },
    /// Anything that is none of the three forms above, or a form that was
    /// not read. Only the form of a variant's first `code` annotation is
    /// ever looked at.
    Opaque,
}

impl View for AnnotationShape {
    type V = ShapeView;

    open spec fn view(&self) -> ShapeView {
        match self {
            AnnotationShape::Flag => ShapeView::Flag,
            AnnotationShape::KeyValue => ShapeView::KeyValue,
            AnnotationShape::List { items } => ShapeView::List {
                items: Seq::new(items@.len(), |i: int| items@[i]@),
            },
            AnnotationShape::Opaque => ShapeView::Opaque,
        }
    }
}

/// The model of an [`Annotation`].
pub struct AnnotationView {
    pub path: Seq<char>,
    pub shape: ShapeView,
}

/// The model of a [`Variant`].
pub struct VariantView {
    pub name: Seq<char>,
    pub annotations: Seq<AnnotationView>,
}

/// The model of a [`DeclarationShape`].
pub enum DeclarationShapeView {
    Enumeration { variants: Seq<VariantView> },
    Record,
    Unit,
    Union,
}

/// The model of a [`Declaration`].
pub struct DeclarationView {
    pub name: Seq<char>,
    pub shape: DeclarationShapeView,
}

/// One annotation of a variant: in `#[code(NotFound)]` the path is `code`
/// and the shape is a list of the one item `NotFound`.
#[derive(Clone, Debug, PartialEq, Eq)]
pub struct Annotation {
    /// The path that the annotation begins with; a qualified path keeps its
    /// separators.
    pub path: String,
    /// The form of what is written, the path included.
    pub shape: AnnotationShape,
}

impl View for Annotation {
    type V = AnnotationView;

    open spec fn view(&self) -> AnnotationView {
        AnnotationView { path: self.path@, shape: self.shape@ }
    }
}

/// The models of a sequence of annotations, in the same order.
pub open spec fn annotation_views(annotations: Seq<Annotation>) -> Seq<AnnotationView> {
    Seq::new(annotations.len(), |i: int| annotations[i]@)
}

/// One variant of an enumeration with its annotations in written order.
#[derive(Clone, Debug, PartialEq, Eq)]
pub struct Variant {
    pub name: String,
    pub annotations: Vec<Annotation>,
}

impl View for Variant {
    type V = VariantView;

    open spec fn view(&self) -> VariantView {
        VariantView { name: self.name@, annotations: annotation_views(self.annotations@) }
    }
}

/// The models of a sequence of variants, in the same order.
pub open spec fn variant_views(variants: Seq<Variant>) -> Seq<VariantView> {
    Seq::new(variants.len(), |i: int| variants[i]@)
}

/// What kind of type a declaration introduces.
#[derive(Clone, Debug, PartialEq, Eq)]
pub enum DeclarationShape {
    /// A closed enumeration with its variants in declaration order.
    Enumeration { variants: Vec<Variant> },
    /// A type with fields.
    Record,
    /// A type with no fields and no variants.
    Unit,
    /// An untagged union.
    Union,
}

impl View for DeclarationShape {
    type V = DeclarationShapeView;

    open spec fn view(&self) -> DeclarationShapeView {
        match self {
            DeclarationShape::Enumeration { variants } => DeclarationShapeView::Enumeration {
                variants: variant_views(variants@),
            },
            DeclarationShape::Record => DeclarationShapeView::Record,
            DeclarationShape::Unit => DeclarationShapeView::Unit,
            DeclarationShape::Union => DeclarationShapeView::Union,
        }
    }
}

/// A type declaration handed to the generator.
#[derive(Clone, Debug, PartialEq, Eq)]
pub struct Declaration {
    pub name: String,
    pub shape: DeclarationShape,
}

impl View for Declaration {
    type V = DeclarationView;

    open spec fn view(&self) -> DeclarationView {
        DeclarationView { name: self.name@, shape: self.shape@ }
    }
}

impl DeclarationView {
    /// The variants of an enumeration; no variants for any other type.
    pub open spec fn variants(self) -> Seq<VariantView> {
        match self.shape {
            DeclarationShapeView::Enumeration { variants } => variants,
            _ => Seq::empty(),
        }
    }

    /// Whether the declaration is an enumeration.
    pub open spec fn is_enumeration(self) -> bool {
        self.shape is Enumeration
    }

    /// Whether the declaration can be held in memory: the number of each
    /// variant fits the machine's index type.
    pub open spec fn representable(self) -> bool {
        self.variants().len() <= usize::MAX
    }
}

impl Declaration {
    /// The model of a declaration held in memory is representable.
    pub proof fn view_is_representable(self)
        ensures
            self@.representable(),
    {
        match self.shape {
            DeclarationShape::Enumeration { variants } => {
                assert(variants.len() == variants@.len());
            },
            _ => {},
        }
    }
}

} // verus!
