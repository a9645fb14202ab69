use vstd::prelude::*;

use crate::movie_data::{Cast, CreditsMovie, Crew};
use crate::text::{contains, contains_seq, str_eq};

verus! {

// region: ---- PRINCIPAL ROLES ----
pub open spec fn directing_job(job: Seq<char>) -> bool {
    job == "Director"@ || job == "Co-Director"@
}

pub open spec fn production_job(job: Seq<char>) -> bool {
    job == "Producer"@
}

pub open spec fn camera_job(job: Seq<char>) -> bool {
    job == "Director of Photography"@
}

pub open spec fn sound_job(job: Seq<char>) -> bool {
    job == "Original Music Composer"@ || job == "Sound Designer"@
}

pub open spec fn vfx_job(job: Seq<char>) -> bool {
    job == "VFX Supervisor"@ || job == "Visual Effects Supervisor"@ || job
        == "Visual Effects Art Director"@
}

pub open spec fn writing_job(job: Seq<char>) -> bool {
    job == "Writer"@ || job == "Original Film Writer"@ || job == "Co-Writer"@ || job
        == "Scenario Writer"@ || job == "Teleplay"@ || job == "Screenplay"@
}

pub open spec fn art_job(job: Seq<char>) -> bool {
    job == "Art Direction"@ || job == "Co-Art Director"@ || job == "Production Design"@ || job
        == "Art Designer"@ || job == "Set Designer"@ || job == "Property Master"@
}

pub open spec fn costumes_makeup_job(job: Seq<char>) -> bool {
    job == "Costume Designer"@ || job == "Makeup Designer"@
}

/// The departments that have principal roles at all.
pub open spec fn is_known_department(department: Seq<char>) -> bool {
    department == "Directing"@ || department == "Production"@ || department == "Camera"@
        || department == "Sound"@ || department == "Visual Effects"@ || department
        == "Writing"@ || department == "Art"@ || department == "Costume & Make-Up"@
}

/// The allow-table of principal crew roles, keyed by department and job.
pub open spec fn principal_role(department: Seq<char>, job: Seq<char>) -> bool {
    if department == "Directing"@ {
        directing_job(job)
    } else if department == "Production"@ {
        production_job(job)
    } else if department == "Camera"@ {
        camera_job(job)
    } else if department == "Sound"@ {
        sound_job(job)
    } else if department == "Visual Effects"@ {
        vfx_job(job)
    } else if department == "Writing"@ {
        writing_job(job)
    } else if department == "Art"@ {
        art_job(job)
    } else if department == "Costume & Make-Up"@ {
        costumes_makeup_job(job)
    } else {
        false
    }
}

pub fn is_important_directing(job: &str) -> (r: bool)
    ensures
        r == directing_job(job@),
{
    str_eq(job, "Director") || str_eq(job, "Co-Director")
}

pub fn is_important_production(job: &str) -> (r: bool)
    ensures
        r == production_job(job@),
{
    str_eq(job, "Producer")
}

pub fn is_important_camera(job: &str) -> (r: bool)
    ensures
        r == camera_job(job@),
{
    str_eq(job, "Director of Photography")
}

pub fn is_important_sound(job: &str) -> (r: bool)
    ensures
        r == sound_job(job@),
{
    str_eq(job, "Original Music Composer") || str_eq(job, "Sound Designer")
}

pub fn is_important_vfx(job: &str) -> (r: bool)
    ensures
        r == vfx_job(job@),
{
    str_eq(job, "VFX Supervisor") || str_eq(job, "Visual Effects Supervisor") || str_eq(
        job,
        "Visual Effects Art Director",
    )
}

pub fn is_important_writing(job: &str) -> (r: bool)
    ensures
        r == writing_job(job@),
{
    str_eq(job, "Writer") || str_eq(job, "Original Film Writer") || str_eq(job, "Co-Writer")
        || str_eq(job, "Scenario Writer") || str_eq(job, "Teleplay") || str_eq(job, "Screenplay")
}

pub fn is_important_art(job: &str) -> (r: bool)
    ensures
        r == art_job(job@),
{
    str_eq(job, "Art Direction") || str_eq(job, "Co-Art Director") || str_eq(
        job,
        "Production Design",
    ) || str_eq(job, "Art Designer") || str_eq(job, "Set Designer") || str_eq(
        job,
        "Property Master",
    )
}

pub fn is_important_costumes_makeup(job: &str) -> (r: bool)
    ensures
        r == costumes_makeup_job(job@),
{
    str_eq(job, "Costume Designer") || str_eq(job, "Makeup Designer")
}

/// Whether a crew member of `department` working as `job` is kept.
/// A department outside the table never is.
pub fn is_principal(department: &str, job: &str) -> (r: bool)
    ensures
        r == principal_role(department@, job@),
        !is_known_department(department@) ==> !r,
{
    if str_eq(department, "Directing") {
        is_important_directing(job)
    } else if str_eq(department, "Production") {
        is_important_production(job)
    } else if str_eq(department, "Camera") {
        is_important_camera(job)
    } else if str_eq(department, "Sound") {
        is_important_sound(job)
    } else if str_eq(department, "Visual Effects") {
        is_important_vfx(job)
    } else if str_eq(department, "Writing") {
        is_important_writing(job)
    } else if str_eq(department, "Art") {
        is_important_art(job)
    } else if str_eq(department, "Costume & Make-Up") {
        is_important_costumes_makeup(job)
    } else {
        false
    }
}
// endregion

// region: ---- FILTER CREDITS ----
/// A cast entry is kept unless its character mentions "uncredited".
pub open spec fn is_credited(c: Cast) -> bool {
    !contains_seq(c.character@, "uncredited"@)
}

/// A crew entry is kept when its role is principal.
pub open spec fn is_principal_crew(c: Crew) -> bool {
    principal_role(c.department@, c.job@)
}

pub fn is_credited_cast(c: &Cast) -> (r: bool)
    ensures
        r == is_credited(*c),
{
    !contains(c.character.as_str(), "uncredited")
}

/// Keeps the credited cast and the principal crew, each in its order.
pub fn filter_credits(credits: &mut CreditsMovie)
    ensures
        final(credits).cast@ == old(credits).cast@.filter(|c: Cast| is_credited(c)),
        final(credits).crew@ == old(credits).crew@.filter(|c: Crew| is_principal_crew(c)),
{
    let ghost cast0 = credits.cast@;
    let ghost crew0 = credits.crew@;
    let mut cast: Vec<Cast> = Vec::new();
    let mut i: usize = 0;
    while i < credits.cast.len()
        invariant
            credits.cast@ == cast0,
            i <= cast0.len(),
            cast@ == cast0.subrange(0, i as int).filter(|c: Cast| is_credited(c)),
        decreases cast0.len() - i,
    {
        proof {
            reveal(Seq::filter);
            assert(cast0.subrange(0, i + 1).drop_last() =~= cast0.subrange(0, i as int));
        }
        if is_credited_cast(&credits.cast[i]) {
            cast.push(credits.cast[i].clone());
        }
        i = i + 1;
    }
    assert(cast0.subrange(0, cast0.len() as int) =~= cast0);
    let mut crew: Vec<Crew> = Vec::new();
    let mut j: usize = 0;
    while j < credits.crew.len()
        invariant
            credits.crew@ == crew0,
            j <= crew0.len(),
            crew@ == crew0.subrange(0, j as int).filter(|c: Crew| is_principal_crew(c)),
        decreases crew0.len() - j,
    {
        proof {
            reveal(Seq::filter);
            assert(crew0.subrange(0, j + 1).drop_last() =~= crew0.subrange(0, j as int));
        }
        if is_principal(credits.crew[j].department.as_str(), credits.crew[j].job.as_str()) {
            crew.push(credits.crew[j].clone());
        }
        j = j + 1;
    }
    assert(crew0.subrange(0, crew0.len() as int) =~= crew0);
    credits.cast = cast;
    credits.crew = crew;
}
// endregion

} // verus!
