//! The provider of media: the directories to pick from, the extensions that
//! count as photos and as videos, and the pause flag.
//!
//! [`MediaProvider::get_media`] does not touch the file system. It answers
//! with a [`Progress`] that either asks the caller for a directory listing or
//! for the bytes of a file, or says what was found.

use crate::config::Config;
use crate::photo::extension::{has_extension_in, matches_extension};
use crate::photo::media::Media;
use crate::photo::metadata::{container_tags, Metadata};
use crate::photo::selector::{DirEntry, Listing, Selector, Step};
use crate::random::random_below;
use vstd::prelude::*;

verus! {

/// Why no media came.
#[derive(Clone, Copy, Debug, PartialEq, Eq, Structural)]
pub enum MediaError {
    /// Every walk of the selection missed, or there is no directory to pick
    /// from.
    NotFound,
    /// The root directory or the file that was picked could not be read.
    Unreadable,
}

/// What [`MediaProvider::get_media`] asks for, or what it found.
#[derive(Debug)]
pub enum Progress {
    /// The listing of `directory` is wanted; answer with
    /// [`MediaProvider::listed`].
    List { directory: String, selector: Selector },
    /// The bytes of the photo at `path` are wanted; answer with
    /// [`MediaProvider::photo_from`].
    Read { path: String },
    /// The end: media, nothing because the frame is paused, or an error.
    Done { outcome: Result<Option<Media>, MediaError> },
}

#[derive(Debug)]
pub struct MediaProvider {
    pub config: Config,
    /// The extensions of photos, in lower case.
    pub photo_valid_extensions: Vec<String>,
    /// The extensions of videos, in lower case.
    pub video_valid_extensions: Vec<String>,
    /// While this is set, [`MediaProvider::get_media`] finds nothing.
    pub paused: bool,
}

impl MediaError {
    pub fn message(&self) -> (text: String)
        ensures
            text@ == (match *self {
                MediaError::NotFound => "No valid photo found"@,
                MediaError::Unreadable => "Media could not be read"@,
            }),
    {
        match self {
            MediaError::NotFound => "No valid photo found".to_string(),
            MediaError::Unreadable => "Media could not be read".to_string(),
        }
    }
}

impl MediaProvider {
    /// The directories to pick from.
    pub open spec fn roots(&self) -> Seq<String> {
        self.config.paths@
    }

    /// The extensions of photos.
    pub open spec fn photo_extensions(&self) -> Seq<String> {
        self.photo_valid_extensions@
    }

    /// The extensions of videos.
    pub open spec fn video_extensions(&self) -> Seq<String> {
        self.video_valid_extensions@
    }

    /// The extensions that the selection looks for: those of photos, then
    /// those of videos.
    pub open spec fn wanted_extensions(&self) -> Seq<String> {
        self.photo_extensions() + self.video_extensions()
    }

    /// What a step of the selection means for the caller of `get_media`. A
    /// file that was found is a photo, whose bytes are wanted next, where its
    /// extension is one of photos; else it is a video.
    pub open spec fn after(&self, step: Step) -> Progress {
        match step {
            Step::List { directory, selector } => Progress::List { directory, selector },
            Step::Found { entry } => if has_extension_in(
                entry.file_name@,
                self.photo_extensions(),
            ) {
                Progress::Read { path: entry.path }
            } else {
                Progress::Done { outcome: Ok(Some(Media::Video { path: entry.path })) }
            },
            Step::NotFound => Progress::Done { outcome: Err(MediaError::NotFound) },
            Step::Unreadable => Progress::Done { outcome: Err(MediaError::Unreadable) },
        }
    }

    /// The path of the media that the step speaks of, if it speaks of any.
    pub open spec fn path_handed_out(out: Progress) -> Option<String> {
        match out {
            Progress::Read { path } => Some(path),
            Progress::Done { outcome: Ok(Some(Media::Video { path })) } => Some(path),
            Progress::Done { outcome: Ok(Some(Media::Photo { path, .. })) } => Some(path),
            _ => None,
        }
    }

    /// Where the step speaks of media, that is a file of the listing with one
    /// of the wanted extensions, and never a directory.
    pub open spec fn hands_out_a_file(&self, listing: Listing, out: Progress) -> bool {
        Self::path_handed_out(out) matches Some(path) ==> exists|entry: DirEntry|
            #![trigger listing.holds(entry)]
            listing.holds(entry) && entry.path == path && !entry.is_dir && has_extension_in(
                entry.file_name@,
                self.wanted_extensions(),
            )
    }

    /// A provider that is not paused and takes `jpg`, `jpeg` and `png` for
    /// photos and nothing for videos.
    pub fn new(config: Config) -> (provider: Self)
        ensures
            provider.config == config,
            !provider.paused,
            provider.photo_extensions().len() == 3,
            provider.photo_extensions()[0]@ == "jpg"@,
            provider.photo_extensions()[1]@ == "jpeg"@,
            provider.photo_extensions()[2]@ == "png"@,
            provider.video_extensions().len() == 0,
    {
        let mut photo_valid_extensions: Vec<String> = Vec::new();
        photo_valid_extensions.push("jpg".to_string());
        photo_valid_extensions.push("jpeg".to_string());
        photo_valid_extensions.push("png".to_string());
        MediaProvider {
            config,
            photo_valid_extensions,
            video_valid_extensions: Vec::new(),
            paused: false,
        }
    }

    /// A provider with extensions of the caller's choice, which are to be in
    /// lower case.
    pub fn with_extensions(
        config: Config,
        photo_extensions: Vec<String>,
        video_extensions: Vec<String>,
    ) -> (provider: Self)
        ensures
            provider == (MediaProvider {
                config,
                photo_valid_extensions: photo_extensions,
                video_valid_extensions: video_extensions,
                paused: false,
            }),
    {
        MediaProvider {
            config,
            photo_valid_extensions: photo_extensions,
            video_valid_extensions: video_extensions,
            paused: false,
        }
    }

    /// Pauses or resumes the frame.
    pub fn set_paused(&mut self, paused: bool)
        ensures
            *final(self) == (MediaProvider { paused, ..*old(self) }),
    {
        self.paused = paused;
    }

    /// Pauses a running frame and resumes a paused one; says whether it is
    /// paused now.
    pub fn toggle_paused(&mut self) -> (paused: bool)
        ensures
            paused == !old(self).paused,
            *final(self) == (MediaProvider { paused, ..*old(self) }),
    {
        self.paused = !self.paused;
        self.paused
    }

    fn all_extensions(&self) -> (all: Vec<String>)
        ensures
            all@ == self.wanted_extensions(),
    {
        let mut all: Vec<String> = Vec::new();
        let mut i: usize = 0;
        while i < self.photo_valid_extensions.len()
            invariant
                i <= self.photo_valid_extensions@.len(),
                all@ == self.photo_valid_extensions@.take(i as int),
            decreases self.photo_valid_extensions@.len() - i,
        {
            all.push(self.photo_valid_extensions[i].clone());
            assert(self.photo_valid_extensions@.take(i + 1) =~= self.photo_valid_extensions@.take(
                i as int,
            ).push(self.photo_valid_extensions@[i as int]));
            i += 1;
        }
        assert(self.photo_valid_extensions@.take(i as int) =~= self.photo_valid_extensions@);
        let mut j: usize = 0;
        while j < self.video_valid_extensions.len()
            invariant
                j <= self.video_valid_extensions@.len(),
                all@ == self.photo_valid_extensions@ + self.video_valid_extensions@.take(j as int),
            decreases self.video_valid_extensions@.len() - j,
        {
            all.push(self.video_valid_extensions[j].clone());
            assert(self.photo_valid_extensions@ + self.video_valid_extensions@.take(j + 1)
                =~= (self.photo_valid_extensions@ + self.video_valid_extensions@.take(
                j as int,
            )).push(self.video_valid_extensions@[j as int]));
            j += 1;
        }
        assert(self.video_valid_extensions@.take(j as int) =~= self.video_valid_extensions@);
        all
    }

    fn proceed(&self, step: Step) -> (out: Progress)
        ensures
            out == self.after(step),
    {
        match step {
            Step::List { directory, selector } => Progress::List { directory, selector },
            Step::Found { entry } => {
                if matches_extension(entry.file_name.as_str(), &self.photo_valid_extensions) {
                    Progress::Read { path: entry.path }
                } else {
                    Progress::Done { outcome: Ok(Some(Media::Video { path: entry.path })) }
                }
            },
            Step::NotFound => Progress::Done { outcome: Err(MediaError::NotFound) },
            Step::Unreadable => Progress::Done { outcome: Err(MediaError::Unreadable) },
        }
    }

    /// What `get_media` answers when `pick` is the place of the root drawn:
    /// nothing while the frame is paused, else the first step of a selection.
    pub open spec fn first(&self, pick: int) -> Progress {
        if self.paused {
            Progress::Done { outcome: Ok(None) }
        } else {
            self.after(Selector::begin(self.roots(), pick))
        }
    }

    /// Starts to look for media, from the root at place `pick`.
    pub fn get_media_at(&self, pick: usize) -> (out: Progress)
        requires
            !self.paused && self.roots().len() > 0 ==> pick < self.roots().len(),
        ensures
            out == self.first(pick as int),
    {
        if self.paused {
            return Progress::Done { outcome: Ok(None) };
        }
        self.proceed(Selector::start_at(&self.config.paths, pick))
    }

    /// Starts to look for media, from a root drawn at random.
    ///
    /// While the frame is paused the answer is that there is nothing, and no
    /// directory or file is asked for.
    pub fn get_media(&self) -> (out: Progress)
        ensures
            self.paused ==> out == (Progress::Done { outcome: Ok(None) }),
            !self.paused && self.roots().len() == 0 ==> out == (Progress::Done {
                outcome: Err(MediaError::NotFound),
            }),
            !self.paused && self.roots().len() > 0 ==> exists|pick: int|
                0 <= pick < self.roots().len() && out == self.first(pick),
    {
        if self.paused || self.config.paths.len() == 0 {
            return self.get_media_at(0);
        }
        let pick: usize = random_below(self.config.paths.len() as u64) as usize;
        self.get_media_at(pick)
    }

    /// Goes on after a directory was read, with `pick` as the place of the
    /// entry to draw.
    pub fn listed_with(&self, selector: Selector, listing: Listing, pick: usize) -> (out: Progress)
        requires
            listing.admits(pick as int),
        ensures
            out == self.after(selector.next(listing, self.wanted_extensions(), pick as int)),
            self.hands_out_a_file(listing, out),
    {
        let extensions = self.all_extensions();
        self.proceed(selector.step_with(listing, &extensions, pick))
    }

    /// Goes on after a directory was read, and draws one of its entries at
    /// random.
    pub fn listed(&self, selector: Selector, listing: Listing) -> (out: Progress)
        ensures
            exists|pick: int|
                listing.admits(pick) && out == self.after(
                    selector.next(listing, self.wanted_extensions(), pick),
                ),
            self.hands_out_a_file(listing, out),
    {
        let extensions = self.all_extensions();
        self.proceed(selector.step(listing, &extensions))
    }

    /// The photo at `path` with what its metadata say.
    pub fn describe(path: String, metadata: Metadata) -> (photo: Media)
        ensures
            photo == (Media::Photo {
                path,
                orientation: metadata.orientation,
                location: metadata.location,
                date: metadata.captured_at,
            }),
    {
        Media::Photo {
            path,
            orientation: metadata.orientation,
            location: metadata.location,
            date: metadata.captured_at,
        }
    }

    /// Ends the search for a photo whose file was read, or could not be.
    pub fn photo_from(path: String, contents: Option<Vec<u8>>) -> (outcome: Result<
        Option<Media>,
        MediaError,
    >)
        ensures
            match contents {
                None => outcome == Err::<Option<Media>, MediaError>(MediaError::Unreadable),
                Some(bytes) => outcome matches Ok(
                    Some(Media::Photo { path: found, orientation, location, date }),
                ) && found == path && (Metadata {
                    orientation,
                    location,
                    captured_at: date,
                }).matches_tags(container_tags(bytes@)),
            },
    {
        match contents {
            None => Err(MediaError::Unreadable),
            Some(bytes) => Ok(Some(MediaProvider::describe(path, Metadata::extract(&bytes)))),
        }
    }
}

impl Default for MediaProvider {
    /// A provider without directories and without extensions, which finds
    /// nothing.
    fn default() -> (provider: Self)
        ensures
            provider.roots().len() == 0,
            provider.photo_extensions().len() == 0,
            provider.video_extensions().len() == 0,
            !provider.paused,
    {
        MediaProvider {
            config: Config::default(),
            photo_valid_extensions: Vec::new(),
            video_valid_extensions: Vec::new(),
            paused: false,
        }
    }
}

} // verus!
