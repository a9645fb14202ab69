use vstd::prelude::*;

use crate::movie_data::{Cast, CreditsMovie, Crew, MovieData};
use crate::text::{starts_with, starts_with_seq};

verus! {

// region: ---- LOCAL LAYOUT ----
/// Folder of the images of one entity: `<root>/images/<category>/<subfolder>`.
pub open spec fn asset_dir_of(root: Seq<char>, category: Seq<char>, subfolder: Seq<char>) -> Seq<char> {
    root + "/images/"@ + category + "/"@ + subfolder
}

/// File of one image: `<root>/images/<category>/<subfolder>/<file_name>`.
pub open spec fn asset_path_of(root: Seq<char>, category: Seq<char>, subfolder: Seq<char>, file_name: Seq<char>) -> Seq<char> {
    asset_dir_of(root, category, subfolder) + "/"@ + file_name
}

/// Where the provider serves an image of the given size.
pub open spec fn image_url_of(size: Seq<char>, remote: Seq<char>) -> Seq<char> {
    "https://image.tmdb.org/t/p/"@ + size + "/"@ + remote
}

pub fn asset_dir(root: &str, category: &str, subfolder: &str) -> (r: String)
    ensures
        r@ == asset_dir_of(root@, category@, subfolder@),
{
    let mut s = String::from_str(root);
    s.append("/images/");
    s.append(category);
    s.append("/");
    s.append(subfolder);
    s
}

pub fn asset_path(root: &str, category: &str, subfolder: &str, file_name: &str) -> (r: String)
    ensures
        r@ == asset_path_of(root@, category@, subfolder@, file_name@),
{
    let mut s = asset_dir(root, category, subfolder);
    s.append("/");
    s.append(file_name);
    s
}

pub fn image_url(size: &str, remote: &str) -> (r: String)
    ensures
        r@ == image_url_of(size@, remote@),
{
    let mut s = String::from_str("https://image.tmdb.org/t/p/");
    s.append(size);
    s.append("/");
    s.append(remote);
    s
}
// endregion

// region: ---- JOBS ----
/// One image to bring: the folder to create, the file to write, and where
/// the provider serves it.
pub struct ImageJob {
    pub dir: String,
    pub target: String,
    pub url: String,
}

/// The job of an image, when the entity has a non-empty remote reference for it.
pub open spec fn is_job_for(
    r: Option<ImageJob>,
    root: Seq<char>,
    category: Seq<char>,
    subfolder: Seq<char>,
    file_name: Seq<char>,
    remote: Option<String>,
    size: Seq<char>,
) -> bool {
    match remote {
        None => r is None,
        Some(rem) => if rem@.len() == 0 {
            r is None
        } else {
            r matches Some(j) && j.dir@ == asset_dir_of(root, category, subfolder)
            && j.target@ == asset_path_of(root, category, subfolder, file_name)
            && j.url@ == image_url_of(size, rem@)
        },
    }
}

pub fn image_job(
    root: &str,
    category: &str,
    subfolder: &str,
    file_name: &str,
    remote: &Option<String>,
    size: &str,
) -> (r: Option<ImageJob>)
    ensures
        is_job_for(r, root@, category@, subfolder@, file_name@, *remote, size@),
{
    match remote {
        None => None,
        Some(rem) => if rem.as_str().unicode_len() == 0 {
            None
        } else {
            Some(
                ImageJob {
                    dir: asset_dir(root, category, subfolder),
                    target: asset_path(root, category, subfolder, file_name),
                    url: image_url(size, rem.as_str()),
                },
            )
        },
    }
}

/// Headshot of an actor: `person/<name>/<name>`, small size.
pub fn cast_image_job(root: &str, cast: &Cast) -> (r: Option<ImageJob>)
    ensures
        is_job_for(r, root@, "person"@, cast.name@, cast.name@, cast.picture_path, "w185"@),
{
    image_job(root, "person", cast.name.as_str(), cast.name.as_str(), &cast.picture_path, "w185")
}

/// Headshot of a crew member: `person/<name>/<name>`, small size.
pub fn crew_image_job(root: &str, crew: &Crew) -> (r: Option<ImageJob>)
    ensures
        is_job_for(r, root@, "person"@, crew.name@, crew.name@, crew.picture_path, "w185"@),
{
    image_job(root, "person", crew.name.as_str(), crew.name.as_str(), &crew.picture_path, "w185")
}

/// Large poster: `movie/<title>/poster_large`.
pub fn poster_job(root: &str, movie: &MovieData) -> (r: Option<ImageJob>)
    ensures
        is_job_for(r, root@, "movie"@, movie.title@, "poster_large"@, movie.poster_large, "w780"@),
{
    image_job(root, "movie", movie.title.as_str(), "poster_large", &movie.poster_large, "w780")
}

/// Poster snapshot: `movie/<title>/poster_snapshot`, small size.
pub fn poster_snapshot_job(root: &str, movie: &MovieData) -> (r: Option<ImageJob>)
    ensures
        is_job_for(r, root@, "movie"@, movie.title@, "poster_snapshot"@, movie.poster_snapshot, "w185"@),
{
    image_job(root, "movie", movie.title.as_str(), "poster_snapshot", &movie.poster_snapshot, "w185")
}

/// Backdrop: `movie/<title>/backdrop`, largest size.
pub fn backdrop_job(root: &str, movie: &MovieData) -> (r: Option<ImageJob>)
    ensures
        is_job_for(r, root@, "movie"@, movie.title@, "backdrop"@, movie.backdrop, "w1280"@),
{
    image_job(root, "movie", movie.title.as_str(), "backdrop", &movie.backdrop, "w1280")
}
// endregion

// region: ---- FETCH ----
/// What to do for an image job.
#[derive(PartialEq, Eq, Structural, Debug, Clone, Copy)]
pub enum FetchPlan {
    /// The file is already there: it is the image, nothing is downloaded.
    Reuse,
    /// The file is missing: download it.
    Download,
}

pub open spec fn fetch_plan(exists: bool) -> FetchPlan {
    if exists {
        FetchPlan::Reuse
    } else {
        FetchPlan::Download
    }
}

/// Decides an image job from whether its target file exists.
pub fn plan_fetch(target_exists: bool) -> (r: FetchPlan)
    ensures
        r == fetch_plan(target_exists),
{
    if target_exists {
        FetchPlan::Reuse
    } else {
        FetchPlan::Download
    }
}

/// The files present after a job on `target` completed: a reused file
/// stays, a download writes it.
pub open spec fn files_after(files: Set<Seq<char>>, target: Seq<char>) -> Set<Seq<char>> {
    files.insert(target)
}

pub open spec fn download_count(p: FetchPlan) -> nat {
    if p == FetchPlan::Download {
        1
    } else {
        0
    }
}

/// Two jobs on the same target, one after the other, download at most
/// once: the second finds the file the first wrote, and exactly one
/// download happens when the file was missing at the start.
pub proof fn lemma_fetch_memoized(files: Set<Seq<char>>, target: Seq<char>)
    ensures
        fetch_plan(files_after(files, target).contains(target)) == FetchPlan::Reuse,
        download_count(fetch_plan(files.contains(target))) + download_count(
            fetch_plan(files_after(files, target).contains(target)),
        ) == (if files.contains(target) {
            0nat
        } else {
            1nat
        }),
{
}

/// Why one image could not be brought.
#[derive(PartialEq, Eq, Structural, Debug, Clone, Copy)]
pub enum AssetError {
    /// The provider answered with a status outside 200..=299.
    HttpStatus(u16),
    /// The answer does not declare an `image/` content type.
    NotAnImage,
    /// The transfer or the write to disk failed.
    Transfer,
}

/// Accepts an image answer: a success status and a content type that
/// begins with `image/`.
pub fn check_image_response(status: u16, content_type: Option<&str>) -> (r: Result<(), AssetError>)
    ensures
        !(200 <= status <= 299) ==> r == Err::<(), AssetError>(AssetError::HttpStatus(status)),
        200 <= status <= 299 ==> (r is Ok <==> (content_type matches Some(t) && starts_with_seq(t@, "image/"@))),
        200 <= status <= 299 && r is Err ==> r == Err::<(), AssetError>(AssetError::NotAnImage),
{
    if status < 200 || status > 299 {
        return Err(AssetError::HttpStatus(status));
    }
    match content_type {
        Some(t) => {
            if starts_with(t, "image/") {
                Ok(())
            } else {
                Err(AssetError::NotAnImage)
            }
        },
        None => Err(AssetError::NotAnImage),
    }
}
// endregion

// region: ---- OUTCOMES ----
/// The reference an image slot holds after its job: the local file, or,
/// when the image could not be brought, what it held before.
pub open spec fn slot_after(slot: Option<String>, outcome: Result<String, AssetError>) -> Option<String> {
    match outcome {
        Ok(p) => Some(p),
        Err(_) => slot,
    }
}


/// The cast after the headshot outcomes, applied in order: a success sets
/// the entry's local file, a failure leaves the entry as it was, and an
/// index past the end is ignored.
pub open spec fn cast_after(cast: Seq<Cast>, results: Seq<(usize, Result<String, AssetError>)>) -> Seq<Cast>
    decreases results.len(),
{
    if results.len() == 0 {
        cast
    } else {
        let prev = cast_after(cast, results.drop_last());
        let (i, o) = results.last();
        match o {
            Ok(p) => if i < prev.len() {
                prev.update(i as int, Cast { picture_path: Some(p), ..prev[i as int] })
            } else {
                prev
            },
            Err(_) => prev,
        }
    }
}

/// The crew after the headshot outcomes, applied in order: a success sets
/// the entry's local file, a failure leaves the entry as it was, and an
/// index past the end is ignored.
pub open spec fn crew_after(crew: Seq<Crew>, results: Seq<(usize, Result<String, AssetError>)>) -> Seq<Crew>
    decreases results.len(),
{
    if results.len() == 0 {
        crew
    } else {
        let prev = crew_after(crew, results.drop_last());
        let (i, o) = results.last();
        match o {
            Ok(p) => if i < prev.len() {
                prev.update(i as int, Crew { picture_path: Some(p), ..prev[i as int] })
            } else {
                prev
            },
            Err(_) => prev,
        }
    }
}

proof fn lemma_cast_after_len(cast: Seq<Cast>, results: Seq<(usize, Result<String, AssetError>)>)
    ensures
        cast_after(cast, results).len() == cast.len(),
    decreases results.len(),
{
    if results.len() > 0 {
        lemma_cast_after_len(cast, results.drop_last());
    }
}

proof fn lemma_crew_after_len(crew: Seq<Crew>, results: Seq<(usize, Result<String, AssetError>)>)
    ensures
        crew_after(crew, results).len() == crew.len(),
    decreases results.len(),
{
    if results.len() > 0 {
        lemma_crew_after_len(crew, results.drop_last());
    }
}

impl CreditsMovie {
    /// Records the headshot outcomes of the cast, each under the index
    /// it was computed for, in whatever order they completed.
    pub fn apply_cast_images(&mut self, results: Vec<(usize, Result<String, AssetError>)>)
        ensures
            final(self).cast@ == cast_after(old(self).cast@, results@),
            final(self).crew == old(self).crew,
    {
        let ghost cast0 = self.cast@;
        let mut k: usize = 0;
        while k < results.len()
            invariant
                k <= results@.len(),
                self.cast@ == cast_after(cast0, results@.subrange(0, k as int)),
                self.crew == old(self).crew,
            decreases results@.len() - k,
        {
            proof {
                assert(results@.subrange(0, k + 1).drop_last() =~= results@.subrange(0, k as int));
                lemma_cast_after_len(cast0, results@.subrange(0, k as int));
            }
            let i = results[k].0;
            if let Ok(p) = &results[k].1 {
                if i < self.cast.len() {
                    let mut entry = self.cast[i].clone();
                    entry.set_picture_path(Some(p.clone()));
                    self.cast.set(i, entry);
                }
            }
            k = k + 1;
        }
        assert(results@.subrange(0, results@.len() as int) =~= results@);
    }

    /// Records the headshot outcomes of the crew, each under the index
    /// it was computed for, in whatever order they completed.
    pub fn apply_crew_images(&mut self, results: Vec<(usize, Result<String, AssetError>)>)
        ensures
            final(self).crew@ == crew_after(old(self).crew@, results@),
            final(self).cast == old(self).cast,
    {
        let ghost crew0 = self.crew@;
        let mut k: usize = 0;
        while k < results.len()
            invariant
                k <= results@.len(),
                self.crew@ == crew_after(crew0, results@.subrange(0, k as int)),
                self.cast == old(self).cast,
            decreases results@.len() - k,
        {
            proof {
                assert(results@.subrange(0, k + 1).drop_last() =~= results@.subrange(0, k as int));
                lemma_crew_after_len(crew0, results@.subrange(0, k as int));
            }
            let i = results[k].0;
            if let Ok(p) = &results[k].1 {
                if i < self.crew.len() {
                    let mut entry = self.crew[i].clone();
                    entry.set_picture_path(Some(p.clone()));
                    self.crew.set(i, entry);
                }
            }
            k = k + 1;
        }
        assert(results@.subrange(0, results@.len() as int) =~= results@);
    }
}

/// The reference an image slot holds after its job, if it had one.
pub open spec fn slot_after_job(slot: Option<String>, outcome: Option<Result<String, AssetError>>) -> Option<String> {
    match outcome {
        None => slot,
        Some(o) => slot_after(slot, o),
    }
}

impl MovieData {
    /// Records the outcomes of the three movie images (`None` where there
    /// was no job); a failed one does not set its reference, which keeps
    /// what it held.
    pub fn apply_poster_outcomes(
        &mut self,
        backdrop: Option<Result<String, AssetError>>,
        poster_large: Option<Result<String, AssetError>>,
        poster_snapshot: Option<Result<String, AssetError>>,
    )
        ensures
            *final(self) == (MovieData {
                backdrop: slot_after_job(old(self).backdrop, backdrop),
                poster_large: slot_after_job(old(self).poster_large, poster_large),
                poster_snapshot: slot_after_job(old(self).poster_snapshot, poster_snapshot),
                ..*old(self)
            }),
    {
        if let Some(Ok(p)) = backdrop {
            self.backdrop = Some(p);
        }
        if let Some(Ok(p)) = poster_large {
            self.poster_large = Some(p);
        }
        if let Some(Ok(p)) = poster_snapshot {
            self.poster_snapshot = Some(p);
        }
    }
}
// endregion

} // verus!
