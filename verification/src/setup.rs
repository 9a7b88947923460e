use vstd::prelude::*;

verus! {

/// What the setup sequencer is told about the build and the host: whether
/// this is a development build, which top-level surfaces the host created,
/// and which surface the diagnostic overlay attaches to.
pub struct SetupEnv {
    /// True in a development build configuration.
    pub dev_build: bool,
    /// Names of the top-level surfaces the host created.
    pub surfaces: Vec<String>,
    /// The surface the diagnostic overlay needs in a development build.
    pub diagnostic_surface: String,
}

/// The diagnostic surface is among the surfaces the host created.
pub open spec fn surface_found(env: SetupEnv) -> bool {
    exists|i: int|
        0 <= i < env.surfaces@.len() && env.surfaces@[i]@ == env.diagnostic_surface@
}

/// Setup may complete: in a development build the diagnostic surface must be
/// present; in any other build nothing further is required.
pub open spec fn setup_admissible(env: SetupEnv) -> bool {
    env.dev_build ==> surface_found(env)
}

/// Looks for the diagnostic surface among the surfaces the host created.
pub fn has_surface(env: &SetupEnv) -> (r: bool)
    ensures
        r == surface_found(*env),
{
    let mut i: usize = 0;
    while i < env.surfaces.len()
        invariant
            i <= env.surfaces@.len(),
            forall|k: int| 0 <= k < i ==> env.surfaces@[k]@ != env.diagnostic_surface@,
        decreases env.surfaces@.len() - i,
    {
        if env.surfaces[i] == env.diagnostic_surface {
            assert(env.surfaces@[i as int]@ == env.diagnostic_surface@);
            return true;
        }
        i += 1;
    }
    false
}

} // verus!
