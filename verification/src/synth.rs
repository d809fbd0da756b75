//! Building the conversion for a whole declaration.
use vstd::prelude::*;
use crate::annotation::{annotation_code, code_position, find_code_annotation, parse_code_attr};
use crate::conversion::{Arm, ArmView, ConversionView, GeneratedConversion};
use crate::diagnostic::{annotation_site, Diagnostic, Fault, Site};
use crate::model::{
    variant_views, Declaration, DeclarationShape, DeclarationView, Variant, VariantView,
};

verus! {

/// What variant number `index` of an enumeration contributes: its arm, with
/// the code that its first `code` annotation names, or the diagnostic for a
/// missing or wrong annotation.
pub open spec fn variant_outcome(variant: VariantView, index: usize) -> Result<ArmView, Diagnostic> {
    match code_position(variant.annotations) {
        None => Err(Diagnostic { fault: Fault::MissingCode, site: Site::Variant { variant: index } }),
        Some(j) => match annotation_code(variant.annotations[j]) {
            Ok(code) => Ok(ArmView { variant: variant.name, code }),
            Err(fault) => Err(
                Diagnostic { fault, site: annotation_site(fault, index, j as usize) },
            ),
        },
    }
}

/// Whether every variant before number `count` contributes an arm.
pub open spec fn all_valid_before(variants: Seq<VariantView>, count: int) -> bool {
    forall|k: int|
        0 <= k < count && k < variants.len() ==> (#[trigger] variant_outcome(
            variants[k],
            k as usize,
        )) is Ok
}

/// Whether every variant of an enumeration is annotated as required.
pub open spec fn well_annotated(declaration: DeclarationView) -> bool {
    declaration.is_enumeration() && all_valid_before(
        declaration.variants(),
        declaration.variants().len() as int,
    )
}

/// Whether `conversion` is the conversion for `declaration`: the
/// declaration is an enumeration, the conversion bears its name, and arm
/// `i` is what variant `i` contributes.
pub open spec fn accepted(declaration: DeclarationView, conversion: ConversionView) -> bool {
    &&& declaration.is_enumeration()
    &&& conversion.enum_name == declaration.name
    &&& conversion.arms.len() == declaration.variants().len()
    &&& forall|i: int|
        0 <= i < declaration.variants().len() ==> (#[trigger] variant_outcome(
            declaration.variants()[i],
            i as usize,
        )) == Ok::<ArmView, Diagnostic>(conversion.arms[i])
}

/// Whether `diagnostic` is the refusal of `declaration`: for a type that is
/// no enumeration, the finding that it is none, at the declaration; for an
/// enumeration, the diagnostic of the first variant that contributes no arm.
pub open spec fn rejected(declaration: DeclarationView, diagnostic: Diagnostic) -> bool {
    if declaration.is_enumeration() {
        match diagnostic.site.variant_index() {
            Some(i) => {
                &&& i < declaration.variants().len()
                &&& all_valid_before(declaration.variants(), i as int)
                &&& variant_outcome(declaration.variants()[i as int], i) == Err::<
                    ArmView,
                    Diagnostic,
                >(diagnostic)
            },
            None => false,
        }
    } else {
        diagnostic == (Diagnostic { fault: Fault::NotAnEnum, site: Site::Declaration })
    }
}

/// Builds the arm for variant number `index` of an enumeration from the
/// variant's first `code` annotation. Annotations under other tags, and
/// further `code` annotations after the first, are not read.
pub fn variant_arm(variant: &Variant, index: usize) -> (built: Result<Arm, Diagnostic>)
    ensures
        match built {
            Ok(arm) => variant_outcome(variant@, index) == Ok::<ArmView, Diagnostic>(arm@),
            Err(diagnostic) => variant_outcome(variant@, index) == Err::<ArmView, Diagnostic>(
                diagnostic,
            ),
        },
{
    let position = match find_code_annotation(&variant.annotations) {
        Some(position) => position,
        None => {
            return Err(
                Diagnostic { fault: Fault::MissingCode, site: Site::Variant { variant: index } },
            );
        },
    };
    match parse_code_attr(&variant.annotations[position]) {
        Ok(code) => Ok(Arm { variant: variant.name.clone(), code }),
        Err(fault) => Err(Diagnostic { fault, site: Site::in_annotation(fault, index, position) }),
    }
}

/// Generates the conversion for an error enumeration.
///
/// Succeeds exactly when the declaration is an enumeration whose every
/// variant carries a well-formed `code` annotation; the conversion then has
/// one arm per variant, in declaration order. Otherwise the result is the
/// one diagnostic of the first thing found wrong, and nothing is generated.
pub fn impl_tonic_thiserror(ast: &Declaration) -> (generated: Result<
    GeneratedConversion,
    Diagnostic,
>)
    ensures
        generated is Ok <==> well_annotated(ast@),
        match generated {
            Ok(conversion) => accepted(ast@, conversion@),
            Err(diagnostic) => rejected(ast@, diagnostic),
        },
{
    let variants = match &ast.shape {
        DeclarationShape::Enumeration { variants } => variants,
        _ => {
            return Err(Diagnostic { fault: Fault::NotAnEnum, site: Site::Declaration });
        },
    };
    let mut arms: Vec<Arm> = Vec::new();
    let mut i: usize = 0;
    while i < variants.len()
        invariant
            ast@.is_enumeration(),
            variant_views(variants@) == ast@.variants(),
            i <= variants.len(),
            arms@.len() == i,
            forall|k: int|
                0 <= k < i ==> (#[trigger] variant_outcome(
                    variant_views(variants@)[k],
                    k as usize,
                )) == Ok::<ArmView, Diagnostic>(arms@[k]@),
        decreases variants.len() - i,
    {
        match variant_arm(&variants[i], i) {
            Ok(arm) => {
                arms.push(arm);
            },
            Err(diagnostic) => {
                assert(variant_outcome(ast@.variants()[i as int], (i as int) as usize) is Err);
                return Err(diagnostic);
            },
        }
        i += 1;
    }
    Ok(GeneratedConversion { enum_name: ast.name.clone(), arms })
}

} // verus!
