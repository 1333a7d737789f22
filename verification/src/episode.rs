use vstd::prelude::*;

verus! {

/// The mathematical value of an [`Episode`]: every field as a plain
/// specification-level value.
pub ghost struct EpisodeView {
    pub media_url: Seq<char>,
    pub title: Seq<char>,
    pub date: i64,
    pub description: Option<Seq<char>>,
    pub duration: Option<u64>,
    pub resume_time: u64,
    pub finished: bool,
}

/// One feed item resolved into a playable unit with playback-progress fields.
///
/// `date` is the publish time in seconds since the Unix epoch, UTC.
/// `duration` and `resume_time` are whole seconds; a `duration` of `None`
/// means the length of the media has not been determined yet.
#[derive(Debug)]
pub struct Episode {
    pub media_url: String,
    pub title: String,
    pub date: i64,
    pub description: Option<String>,
    pub duration: Option<u64>,
    pub resume_time: u64,
    pub finished: bool,
}

impl View for Episode {
    type V = EpisodeView;

    open spec fn view(&self) -> EpisodeView {
        EpisodeView {
            media_url: self.media_url@,
            title: self.title@,
            date: self.date,
            description: match self.description {
                Some(ref d) => Some(d@),
                None => None,
            },
            duration: self.duration,
            resume_time: self.resume_time,
            finished: self.finished,
        }
    }
}

impl Episode {
    /// Playback-progress integrity: once the total duration is known, the
    /// resume position must not lie past it.
    pub open spec fn wf(&self) -> bool {
        self.duration matches Some(d) ==> self.resume_time <= d
    }

    /// Returns the url of the episode's attached media.
    pub fn media_url(&self) -> (r: &str)
        ensures
            r@ == self@.media_url,
    {
        self.media_url.as_str()
    }

    /// Returns the title of the episode.
    pub fn title(&self) -> (r: &str)
        ensures
            r@ == self@.title,
    {
        self.title.as_str()
    }

    /// Returns the publish time of the episode, in seconds since the Unix
    /// epoch, UTC.
    pub fn date(&self) -> (r: i64)
        ensures
            r == self@.date,
    {
        self.date
    }

    /// Returns the show notes of the episode, if the feed carried any.
    pub fn description(&self) -> (r: Option<&String>)
        ensures
            match r {
                Some(d) => self@.description == Some(d@),
                None => self@.description is None,
            },
    {
        self.description.as_ref()
    }

    /// Returns the total length of the episode in seconds. `None` means the
    /// length has not been worked out yet.
    pub fn duration(&self) -> (r: &Option<u64>)
        ensures
            *r == self@.duration,
    {
        &self.duration
    }

    /// Returns the position, in seconds, where playback should resume.
    pub fn resume_time(&self) -> (r: u64)
        ensures
            r == self@.resume_time,
    {
        self.resume_time
    }

    /// Returns whether the episode has been played to the end.
    pub fn finished(&self) -> (r: bool)
        ensures
            r == self@.finished,
    {
        self.finished
    }
}

} // verus!
