//! From a declaration to the source text of its conversion.
use vstd::prelude::*;
use crate::conversion::{source_text, ArmView, ConversionView};
use crate::diagnostic::Diagnostic;
use crate::model::{Declaration, DeclarationView, VariantView};
use crate::synth::{accepted, impl_tonic_thiserror, rejected, variant_outcome, well_annotated};

verus! {

/// The arm that variant number `index` contributes, where it contributes
/// one.
pub open spec fn arm_of(variant: VariantView, index: int) -> ArmView {
    match variant_outcome(variant, index as usize) {
        Ok(arm) => arm,
        Err(_) => arbitrary(),
    }
}

/// The conversion of a well annotated enumeration: under its name, the arm
/// of each variant in declaration order.
pub open spec fn conversion_of(declaration: DeclarationView) -> ConversionView {
    ConversionView {
        enum_name: declaration.name,
        arms: Seq::new(
            declaration.variants().len(),
            |i: int| arm_of(declaration.variants()[i], i),
        ),
    }
}

/// The conversion that a declaration is accepted with is the conversion of
/// the declaration.
pub proof fn accepted_is_conversion_of(declaration: DeclarationView, conversion: ConversionView)
    requires
        accepted(declaration, conversion),
    ensures
        conversion == conversion_of(declaration),
{
    let expected = conversion_of(declaration);
    assert forall|i: int| 0 <= i < conversion.arms.len() implies conversion.arms[i]
        == expected.arms[i] by {
        assert(variant_outcome(declaration.variants()[i], i as usize) == Ok::<
            ArmView,
            Diagnostic,
        >(conversion.arms[i]));
    }
    assert(conversion.arms =~= expected.arms);
}

/// Derives the conversion for an error enumeration, as source text.
///
/// The result is the text of the conversion exactly when `input` is a well
/// annotated enumeration. A declaration that is refused gives its one
/// diagnostic and no part of a conversion.
pub fn tonic_thiserror_derive(input: &Declaration) -> (output: Result<String, Diagnostic>)
    ensures
        match output {
            Ok(text) => well_annotated(input@) && text@ == source_text(conversion_of(input@)),
            Err(diagnostic) => !well_annotated(input@) && rejected(input@, diagnostic),
        },
{
    match impl_tonic_thiserror(input) {
        Ok(conversion) => {
            proof {
                accepted_is_conversion_of(input@, conversion@);
            }
            Ok(conversion.render())
        },
        Err(diagnostic) => Err(diagnostic),
    }
}

} // verus!
