use vstd::prelude::*;

use crate::assets::{cast_after, crew_after, slot_after_job, AssetError};
use crate::credits::{filter_credits, is_credited, is_principal_crew};
use crate::movie_data::{Cast, CreditsMovie, Crew, MovieData};
use crate::search::{decimal_u32, is_first_most_popular, parse_year, MovieGenres, MovieSearchResult};

verus! {

/// A call to the metadata provider failed: transport or decoding.
#[derive(PartialEq, Eq, Structural, Debug, Clone, Copy)]
pub struct ProviderError;

/// Why the enrichment of one movie stopped short.
#[derive(PartialEq, Eq, Structural, Debug, Clone, Copy)]
pub enum EnrichError {
    /// The search found no match.
    NotFound,
    /// The provider could not be asked.
    Provider,
}

/// The transaction that stores one movie failed.
#[derive(PartialEq, Eq, Structural, Debug, Clone, Copy)]
pub struct PersistError;

/// Where the processing of one movie stands.
#[derive(PartialEq, Eq, Structural, Debug, Clone, Copy)]
pub enum Stage {
    Searching,
    FetchingGenres,
    FetchingCredits,
    FetchingAssets,
    Persisting,
    Persisted,
    Failed,
}

/// What the processing of one movie needs next from outside.
pub enum Action {
    /// Search the provider by title, and by year when the file name has one.
    Search { title: String, year: Option<u32> },
    /// Fetch the genre list of the resolved movie.
    FetchGenres { tmdb_id: i64 },
    /// Fetch the cast and crew of the resolved movie.
    FetchCredits { tmdb_id: i64 },
    /// Bring the images of the movie and of its retained credits.
    FetchAssets,
    /// Store the movie, its genres and its people in one transaction.
    Persist,
    /// Nothing is left to do.
    Finished,
}

/// One discovered movie on its way through enrichment, image retrieval and
/// storage. Each step takes what the outside call returned; a failed step
/// degrades the data and the movie goes on.
pub struct MovieUnit {
    pub movie: MovieData,
    pub credits: CreditsMovie,
    pub stage: Stage,
}

impl MovieUnit {
    pub fn new(movie: MovieData) -> (r: MovieUnit)
        ensures
            r.movie == movie,
            r.credits.cast@.len() == 0,
            r.credits.crew@.len() == 0,
            r.stage == Stage::Searching,
    {
        MovieUnit { movie, credits: CreditsMovie::new(), stage: Stage::Searching }
    }

    /// The outside work that the current stage waits for.
    pub fn next_action(&self) -> (r: Action)
        ensures
            self.stage == Stage::Searching ==> (r matches Action::Search { title, year } && title@
                == self.movie.file_title@ && year == decimal_u32(self.movie.file_year@)),
            self.stage == Stage::FetchingGenres ==> r == (Action::FetchGenres { tmdb_id: self.movie.tmdb_id }),
            self.stage == Stage::FetchingCredits ==> r == (Action::FetchCredits { tmdb_id: self.movie.tmdb_id }),
            self.stage == Stage::FetchingAssets ==> r is FetchAssets,
            self.stage == Stage::Persisting ==> r is Persist,
            (self.stage == Stage::Persisted || self.stage == Stage::Failed) ==> r is Finished,
    {
        match self.stage {
            Stage::Searching => Action::Search {
                title: self.movie.file_title.clone(),
                year: parse_year(self.movie.file_year.as_str()),
            },
            Stage::FetchingGenres => Action::FetchGenres { tmdb_id: self.movie.tmdb_id },
            Stage::FetchingCredits => Action::FetchCredits { tmdb_id: self.movie.tmdb_id },
            Stage::FetchingAssets => Action::FetchAssets,
            Stage::Persisting => Action::Persist,
            Stage::Persisted | Stage::Failed => Action::Finished,
        }
    }

    /// Takes the answer to the search. The most popular match (the first
    /// among equals) resolves the movie and enrichment goes on; with no
    /// match, or no answer, the movie keeps its file data and goes on to
    /// image retrieval. Outside the searching stage nothing changes.
    pub fn on_search(&mut self, outcome: Result<MovieSearchResult, ProviderError>) -> (r: Result<(), EnrichError>)
        ensures
            old(self).stage != Stage::Searching ==> *final(self) == *old(self) && r is Ok,
            old(self).stage == Stage::Searching ==> final(self).credits == old(self).credits,
            old(self).stage == Stage::Searching && outcome is Err ==> r == Err::<(), EnrichError>(
                EnrichError::Provider,
            ) && final(self).movie == old(self).movie && final(self).stage == Stage::FetchingAssets,
            old(self).stage == Stage::Searching && (outcome matches Ok(s) && s.results@.len() == 0)
                ==> r == Err::<(), EnrichError>(EnrichError::NotFound) && final(self).movie == old(self).movie
                && final(self).stage == Stage::FetchingAssets,
            old(self).stage == Stage::Searching && (outcome matches Ok(s) && s.results@.len() > 0) ==> r
                is Ok && final(self).stage == Stage::FetchingGenres && (exists|k: int|
                #[trigger] is_first_most_popular(outcome->Ok_0.results@, k) && {
                    let m = outcome->Ok_0.results@[k];
                    &&& final(self).movie.tmdb_id == m.id
                    &&& final(self).movie.original_title@ == m.original_title@
                    &&& final(self).movie.title@ == m.title@
                    &&& final(self).movie.vote_average == m.vote_average
                    &&& final(self).movie.release_date@ == m.release_date@
                    &&& final(self).movie.summary@ == m.overview@
                    &&& final(self).movie.poster_large == m.poster_path
                    &&& final(self).movie.poster_snapshot == m.poster_path
                    &&& final(self).movie.backdrop == m.backdrop_path
                }) && final(self).movie.file_path == old(self).movie.file_path
                && final(self).movie.file_title == old(self).movie.file_title
                && final(self).movie.file_year == old(self).movie.file_year
                && final(self).movie.file_optional_info == old(self).movie.file_optional_info
                && final(self).movie.genres == old(self).movie.genres
                && final(self).movie.id == old(self).movie.id,
    {
        if self.stage != Stage::Searching {
            return Ok(());
        }
        match outcome {
            Err(_) => {
                self.stage = Stage::FetchingAssets;
                Err(EnrichError::Provider)
            },
            Ok(found) => match found.most_popular_index() {
                None => {
                    self.stage = Stage::FetchingAssets;
                    Err(EnrichError::NotFound)
                },
                Some(k) => {
                    self.movie.apply_search_result(&found.results[k]);
                    self.stage = Stage::FetchingGenres;
                    assert(is_first_most_popular(found.results@, k as int));
                    Ok(())
                },
            },
        }
    }

    /// Takes the genre list; without one the movie keeps no genres. Either
    /// way the credits come next. Outside that stage nothing changes.
    pub fn on_genres(&mut self, outcome: Result<MovieGenres, ProviderError>) -> (r: Result<(), EnrichError>)
        ensures
            old(self).stage != Stage::FetchingGenres ==> *final(self) == *old(self) && r is Ok,
            old(self).stage == Stage::FetchingGenres ==> final(self).stage == Stage::FetchingCredits
                && final(self).credits == old(self).credits && (r is Ok <==> outcome is Ok),
            old(self).stage == Stage::FetchingGenres ==> match outcome {
                Ok(g) => final(self).movie == (MovieData { genres: g.genres, ..old(self).movie }),
                Err(_) => final(self).movie == old(self).movie && r == Err::<(), EnrichError>(EnrichError::Provider),
            },
    {
        if self.stage != Stage::FetchingGenres {
            return Ok(());
        }
        self.stage = Stage::FetchingCredits;
        match outcome {
            Ok(g) => {
                self.movie.genres = g.genres;
                Ok(())
            },
            Err(_) => Err(EnrichError::Provider),
        }
    }

    /// Takes the credits and keeps the credited cast and principal crew;
    /// without credits the movie goes on with nobody. Images come next.
    /// Outside that stage nothing changes.
    pub fn on_credits(&mut self, outcome: Result<CreditsMovie, ProviderError>) -> (r: Result<(), EnrichError>)
        ensures
            old(self).stage != Stage::FetchingCredits ==> *final(self) == *old(self) && r is Ok,
            old(self).stage == Stage::FetchingCredits ==> final(self).stage == Stage::FetchingAssets
                && final(self).movie == old(self).movie && (r is Ok <==> outcome is Ok),
            old(self).stage == Stage::FetchingCredits ==> match outcome {
                Ok(c) => final(self).credits.cast@ == c.cast@.filter(|x: Cast| is_credited(x))
                    && final(self).credits.crew@ == c.crew@.filter(|x: Crew| is_principal_crew(x)),
                Err(_) => final(self).credits.cast@.len() == 0 && final(self).credits.crew@.len() == 0,
            },
    {
        if self.stage != Stage::FetchingCredits {
            return Ok(());
        }
        self.stage = Stage::FetchingAssets;
        match outcome {
            Ok(c) => {
                let mut c = c;
                filter_credits(&mut c);
                self.credits = c;
                Ok(())
            },
            Err(_) => {
                self.credits = CreditsMovie::new();
                Err(EnrichError::Provider)
            },
        }
    }

    /// Takes the outcomes of the image jobs: one for each movie image that
    /// had a job, and the headshot outcomes by credit index. Storage comes
    /// next. Outside that stage nothing changes.
    pub fn on_assets(
        &mut self,
        backdrop: Option<Result<String, AssetError>>,
        poster_large: Option<Result<String, AssetError>>,
        poster_snapshot: Option<Result<String, AssetError>>,
        cast_images: Vec<(usize, Result<String, AssetError>)>,
        crew_images: Vec<(usize, Result<String, AssetError>)>,
    )
        ensures
            old(self).stage != Stage::FetchingAssets ==> *final(self) == *old(self),
            old(self).stage == Stage::FetchingAssets ==> final(self).stage == Stage::Persisting
                && final(self).movie == (MovieData {
                    backdrop: slot_after_job(old(self).movie.backdrop, backdrop),
                    poster_large: slot_after_job(old(self).movie.poster_large, poster_large),
                    poster_snapshot: slot_after_job(old(self).movie.poster_snapshot, poster_snapshot),
                    ..old(self).movie
                })
                && final(self).credits.cast@ == cast_after(old(self).credits.cast@, cast_images@)
                && final(self).credits.crew@ == crew_after(old(self).credits.crew@, crew_images@),
    {
        if self.stage != Stage::FetchingAssets {
            return;
        }
        self.movie.apply_poster_outcomes(backdrop, poster_large, poster_snapshot);
        self.credits.apply_cast_images(cast_images);
        self.credits.apply_crew_images(crew_images);
        self.stage = Stage::Persisting;
    }

    /// Takes the outcome of the transaction. Outside that stage nothing changes.
    pub fn on_persisted(&mut self, outcome: Result<(), PersistError>)
        ensures
            old(self).stage != Stage::Persisting ==> *final(self) == *old(self),
            old(self).stage == Stage::Persisting ==> final(self).movie == old(self).movie
                && final(self).credits == old(self).credits
                && final(self).stage == (if outcome is Ok { Stage::Persisted } else { Stage::Failed }),
    {
        if self.stage != Stage::Persisting {
            return;
        }
        self.stage = match outcome {
            Ok(()) => Stage::Persisted,
            Err(_) => Stage::Failed,
        };
    }
}

} // verus!
