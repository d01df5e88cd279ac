//! The treatment of samples and colours that the user picked.
use crate::text::same_text;
use vstd::prelude::*;

verus! {

/// What to do with the samples of a raw file.
#[derive(Clone, Copy, Debug, PartialEq, Eq, Structural)]
pub struct LinearMode {
    /// Undo the sRGB curve, for files that hold finished pixels and were stored with it.
    pub apply_ungamma: bool,
    /// Apply white balance and the camera's colour matrix.
    pub apply_calibration: bool,
}

/// The treatment that a name stands for. Every name but three stands for the ordinary
/// one.
pub open spec fn mode_of_name(name: Seq<char>) -> LinearMode {
    LinearMode {
        apply_ungamma: name == "gamma"@ || name == "gamma_skip_calib"@,
        apply_calibration: name != "skip_calib"@ && name != "gamma_skip_calib"@,
    }
}

impl LinearMode {
    /// The treatment that `name` stands for.
    pub fn from_name(name: &str) -> (r: LinearMode)
        ensures
            r == mode_of_name(name@),
    {
        proof {
            lemma_mode_names();
        }
        if same_text(name, "gamma") {
            LinearMode { apply_ungamma: true, apply_calibration: true }
        } else if same_text(name, "skip_calib") {
            LinearMode { apply_ungamma: false, apply_calibration: false }
        } else if same_text(name, "gamma_skip_calib") {
            LinearMode { apply_ungamma: true, apply_calibration: false }
        } else {
            LinearMode { apply_ungamma: false, apply_calibration: true }
        }
    }
}

/// Each of the four treatments has a name, and the names of the three special ones are
/// distinct.
pub proof fn lemma_mode_names()
    ensures
        mode_of_name("gamma"@) == (LinearMode { apply_ungamma: true, apply_calibration: true }),
        mode_of_name("skip_calib"@) == (LinearMode {
            apply_ungamma: false,
            apply_calibration: false,
        }),
        mode_of_name("gamma_skip_calib"@) == (LinearMode {
            apply_ungamma: true,
            apply_calibration: false,
        }),
        forall|name: Seq<char>|
            name != "gamma"@ && name != "skip_calib"@ && name != "gamma_skip_calib"@
                ==> #[trigger] mode_of_name(name) == (LinearMode {
                apply_ungamma: false,
                apply_calibration: true,
            }),
{
    reveal_strlit("gamma");
    reveal_strlit("skip_calib");
    reveal_strlit("gamma_skip_calib");
    assert("gamma"@.len() != "skip_calib"@.len());
    assert("gamma"@.len() != "gamma_skip_calib"@.len());
    assert("skip_calib"@.len() != "gamma_skip_calib"@.len());
}

/// The sRGB curve is undone for two names and calibration is skipped for two, one of them in
/// common; every other name, the empty one among them, stands for the ordinary treatment.
pub proof fn lemma_from_name_gives(name: &str, r: LinearMode)
    requires
        call_ensures(LinearMode::from_name, (name,), r),
    ensures
        r.apply_ungamma <==> name@ == "gamma"@ || name@ == "gamma_skip_calib"@,
        !r.apply_calibration <==> name@ == "skip_calib"@ || name@ == "gamma_skip_calib"@,
{
}

} // verus!
