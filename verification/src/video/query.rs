//! Validated query-parameter builders, one per API operation.  Each
//! builder is a small value: construct with defaults, set fields via
//! chained setters, then freeze the query string.

use vstd::prelude::*;
use vstd::string::*;

use crate::error::InputError;

verus! {

/// The fixed comma-joined list of video resource parts shared by the
/// list, insert and update requests.
pub open spec fn spec_part_list() -> Seq<char> {
    "snippet,statistics,contentDetails,id,liveStreamingDetails,localizations,player,recordingDetails,status,topicDetails"@
}

/// The one place the shared part list is written out.
pub fn video_part_list() -> (r: &'static str)
    ensures
        r@ == spec_part_list(),
{
    "snippet,statistics,contentDetails,id,liveStreamingDetails,localizations,player,recordingDetails,status,topicDetails"
}

/// Specifies a comma-separated list of one or more video resource
/// properties that the API response will include.
#[derive(Debug)]
pub struct Part {
    pub part: String,
}

impl Default for Part {
    fn default() -> (r: Part)
        ensures
            r.part@ == Seq::<char>::empty(),
    {
        Part { part: String::new() }
    }
}

impl Part {
    /// Parse a selection of parameters.
    pub fn new(part: &str) -> (r: Part)
        ensures
            r.part@ == part@,
    {
        Part::default().parse_part(part)
    }

    /// Parse every parameter.
    pub fn new_with_every_parameter() -> (r: Part)
        ensures
            r.part@ == "contentDetails,fileDetails,id,liveStreamingDetails,localizations,player,\n            processingDetails,recordingDetails,snippet,statistics,status,suggestions,topicDetails"@,
    {
        Part::default().parse_part(
            "contentDetails,fileDetails,id,liveStreamingDetails,localizations,player,\n            processingDetails,recordingDetails,snippet,statistics,status,suggestions,topicDetails",
        )
    }

    /// Parse the part to its field.
    pub fn parse_part(self, part: &str) -> (r: Self)
        ensures
            r.part@ == part@,
    {
        let mut r = self;
        r.part = String::from_str(part);
        r
    }

    /// Returns the part.
    pub fn get_part(&self) -> (r: &str)
        ensures
            r@ == self.part@,
    {
        self.part.as_str()
    }
}

/// The query string of a list request: the shared part list followed
/// by either the chart or the rating filter.
pub open spec fn spec_list_query(chart: Seq<char>, my_rating: Seq<char>) -> Seq<char> {
    if my_rating.len() == 0 {
        "part="@ + spec_part_list() + "&chart="@ + chart
    } else {
        "part="@ + spec_part_list() + "&my_rating="@ + my_rating
    }
}

/// The query string of an insert or update request: only the shared
/// part list.
pub open spec fn spec_part_query() -> Seq<char> {
    "part="@ + spec_part_list()
}

/// The query string of a rate request.
pub open spec fn spec_rate_query(id: Seq<char>, rating: Seq<char>) -> Seq<char> {
    "id="@ + id + "&rating="@ + rating
}

/// The query string of a delete or get-rating request.
pub open spec fn spec_id_query(id: Seq<char>) -> Seq<char> {
    "id="@ + id
}

/// Builder for the request that lists videos, filtered by exactly one
/// of a chart or the caller's own rating.
#[derive(Debug)]
pub struct ListVideos {
    /// Identifies the desired chart.
    pub chart: String,
    /// Set to 'like'/'dislike' to sort by user rating.
    pub my_rating: String,
    /// The frozen query-parameter string.
    pub query_params: String,
}

impl Default for ListVideos {
    fn default() -> (r: ListVideos)
        ensures
            r.chart@ == Seq::<char>::empty(),
            r.my_rating@ == Seq::<char>::empty(),
            r.query_params@ == Seq::<char>::empty(),
    {
        ListVideos {
            chart: String::new(),
            my_rating: String::new(),
            query_params: String::new(),
        }
    }
}

impl ListVideos {
    /// Sets the my_rating value to 'like' to list the user's liked
    /// videos.
    pub fn create_with_my_rating_like() -> (r: ListVideos)
        ensures
            r.chart@ == Seq::<char>::empty(),
            r.my_rating@ == "like"@,
            r.query_params@ == Seq::<char>::empty(),
    {
        ListVideos::default().parse_my_rating("like")
    }

    /// Sets the chart value to 'mostPopular' to list the most popular
    /// videos on the platform at the moment.
    pub fn create_with_chart_most_popular() -> (r: ListVideos)
        ensures
            r.chart@ == "mostPopular"@,
            r.my_rating@ == Seq::<char>::empty(),
            r.query_params@ == Seq::<char>::empty(),
    {
        ListVideos::default().parse_chart("mostPopular")
    }

    /// Parse the chart to its field.
    pub fn parse_chart(self, chart: &str) -> (r: Self)
        ensures
            r.chart@ == chart@,
            r.my_rating == self.my_rating,
            r.query_params == self.query_params,
    {
        let mut r = self;
        r.chart = String::from_str(chart);
        r
    }

    /// Parse my_rating to its field.
    pub fn parse_my_rating(self, my_rating: &str) -> (r: Self)
        ensures
            r.my_rating@ == my_rating@,
            r.chart == self.chart,
            r.query_params == self.query_params,
    {
        let mut r = self;
        r.my_rating = String::from_str(my_rating);
        r
    }

    /// Returns the chart.
    pub fn get_chart(&self) -> (r: &str)
        ensures
            r@ == self.chart@,
    {
        self.chart.as_str()
    }

    /// Returns the rating (like/dislike).
    pub fn get_my_rating(&self) -> (r: &str)
        ensures
            r@ == self.my_rating@,
    {
        self.my_rating.as_str()
    }

    /// Build and assign the query parameters.  Exactly one of `chart`
    /// and `my_rating` must be set; a builder with both set, or with
    /// neither, is a configuration error and nothing is built.
    pub fn build_query_parameters(self) -> (r: Result<Self, InputError>)
        ensures
            match r {
                Ok(l) => {
                    &&& (self.chart@.len() > 0) != (self.my_rating@.len() > 0)
                    &&& l.chart == self.chart
                    &&& l.my_rating == self.my_rating
                    &&& l.query_params@ == spec_list_query(self.chart@, self.my_rating@)
                }
                Err(e) => {
                    &&& e == InputError::ChartMyRatingExclusive
                    &&& ((self.chart@.len() > 0) <==> (self.my_rating@.len() > 0))
                }
            },
    {
        let part = Part::new(video_part_list());
        if self.my_rating.as_str().is_empty() && !self.chart.as_str().is_empty() {
            let mut query_params = String::from_str("part=");
            query_params.append(part.get_part());
            query_params.append("&chart=");
            query_params.append(self.chart.as_str());
            let mut r = self;
            r.query_params = query_params;
            Ok(r)
        } else if !self.my_rating.as_str().is_empty() && self.chart.as_str().is_empty() {
            let mut query_params = String::from_str("part=");
            query_params.append(part.get_part());
            query_params.append("&my_rating=");
            query_params.append(self.my_rating.as_str());
            let mut r = self;
            r.query_params = query_params;
            Ok(r)
        } else {
            Err(InputError::ChartMyRatingExclusive)
        }
    }

    /// Returns the frozen query-parameter string.
    pub fn get_query_params(&self) -> (r: &str)
        ensures
            r@ == self.query_params@,
    {
        self.query_params.as_str()
    }
}

/// Builder for the request that uploads a video.
#[derive(Debug)]
pub struct InsertVideos {
    /// The frozen query-parameter string.
    pub query_params: String,
}

impl Default for InsertVideos {
    fn default() -> (r: InsertVideos)
        ensures
            r.query_params@ == Seq::<char>::empty(),
    {
        InsertVideos { query_params: String::new() }
    }
}

impl InsertVideos {
    /// Build and assign the query parameters.
    pub fn build_query_parameters(self) -> (r: Self)
        ensures
            r.query_params@ == spec_part_query(),
    {
        let part = Part::new(video_part_list());
        let mut query_params = String::from_str("part=");
        query_params.append(part.get_part());
        let mut r = self;
        r.query_params = query_params;
        r
    }

    /// Returns the frozen query-parameter string.
    pub fn get_query_params(&self) -> (r: &str)
        ensures
            r@ == self.query_params@,
    {
        self.query_params.as_str()
    }
}

/// Builder for the request that records a rating on a video.
#[derive(Debug)]
pub struct RateVideo {
    /// ID of the video to be rated.
    pub id: String,
    /// Rating to record.
    pub rating: String,
    /// The frozen query-parameter string.
    pub query_params: String,
}

impl Default for RateVideo {
    fn default() -> (r: RateVideo)
        ensures
            r.id@ == Seq::<char>::empty(),
            r.rating@ == Seq::<char>::empty(),
            r.query_params@ == Seq::<char>::empty(),
    {
        RateVideo {
            id: String::new(),
            rating: String::new(),
            query_params: String::new(),
        }
    }
}

impl RateVideo {
    /// Create with the value 'like' as the rating.
    pub fn like_video() -> (r: RateVideo)
        ensures
            r.id@ == "E6UTz_Doic8"@,
            r.rating@ == "like"@,
            r.query_params@ == Seq::<char>::empty(),
    {
        RateVideo::default().parse_rating("like").parse_id("E6UTz_Doic8")
    }

    /// Create with the value 'dislike' as the rating.
    pub fn dislike_video() -> (r: RateVideo)
        ensures
            r.id@ == "E6UTz_Doic8"@,
            r.rating@ == "dislike"@,
            r.query_params@ == Seq::<char>::empty(),
    {
        RateVideo::default().parse_rating("dislike").parse_id("E6UTz_Doic8")
    }

    /// Parse the id to its field.
    pub fn parse_id(self, id: &str) -> (r: Self)
        ensures
            r.id@ == id@,
            r.rating == self.rating,
            r.query_params == self.query_params,
    {
        let mut r = self;
        r.id = String::from_str(id);
        r
    }

    /// Parse the rating to its field.
    pub fn parse_rating(self, rating: &str) -> (r: Self)
        ensures
            r.rating@ == rating@,
            r.id == self.id,
            r.query_params == self.query_params,
    {
        let mut r = self;
        r.rating = String::from_str(rating);
        r
    }

    /// Returns the id.
    pub fn get_id(&self) -> (r: &str)
        ensures
            r@ == self.id@,
    {
        self.id.as_str()
    }

    /// Returns the rating.
    pub fn get_rating(&self) -> (r: &str)
        ensures
            r@ == self.rating@,
    {
        self.rating.as_str()
    }

    /// Build and assign the query parameters.
    pub fn build_query_params(self) -> (r: Self)
        ensures
            r.id == self.id,
            r.rating == self.rating,
            r.query_params@ == spec_rate_query(self.id@, self.rating@),
    {
        let mut query_params = String::from_str("id=");
        query_params.append(self.id.as_str());
        query_params.append("&rating=");
        query_params.append(self.rating.as_str());
        let mut r = self;
        r.query_params = query_params;
        r
    }

    /// Returns the frozen query-parameter string.
    pub fn get_query_params(&self) -> (r: &str)
        ensures
            r@ == self.query_params@,
    {
        self.query_params.as_str()
    }
}

/// Builder for the request that updates a video's metadata.
#[derive(Debug)]
pub struct UpdateVideos {
    /// The frozen query-parameter string.
    pub query_params: String,
}

impl Default for UpdateVideos {
    fn default() -> (r: UpdateVideos)
        ensures
            r.query_params@ == Seq::<char>::empty(),
    {
        UpdateVideos { query_params: String::new() }
    }
}

impl UpdateVideos {
    /// Build and assign the query parameters.
    pub fn build_query_parameters(self) -> (r: Self)
        ensures
            r.query_params@ == spec_part_query(),
    {
        let part = Part::new(video_part_list());
        let mut query_params = String::from_str("part=");
        query_params.append(part.get_part());
        let mut r = self;
        r.query_params = query_params;
        r
    }

    /// Returns the frozen query-parameter string.
    pub fn get_query_params(&self) -> (r: &str)
        ensures
            r@ == self.query_params@,
    {
        self.query_params.as_str()
    }
}

/// Builder for the request that reads the rating the caller gave a
/// video.
#[derive(Debug)]
pub struct GetRating {
    /// ID of the video whose rating is read.
    pub id: String,
    /// The frozen query-parameter string.
    pub query_params: String,
}

impl Default for GetRating {
    fn default() -> (r: GetRating)
        ensures
            r.id@ == Seq::<char>::empty(),
            r.query_params@ == Seq::<char>::empty(),
    {
        GetRating { id: String::new(), query_params: String::new() }
    }
}

impl GetRating {
    /// Create with the fixed default id.
    pub fn new() -> (r: GetRating)
        ensures
            r.id@ == "E6UTz_Doic8"@,
            r.query_params@ == Seq::<char>::empty(),
    {
        GetRating::default().parse_id("E6UTz_Doic8")
    }

    /// Parse the id to its field.
    pub fn parse_id(self, id: &str) -> (r: Self)
        ensures
            r.id@ == id@,
            r.query_params == self.query_params,
    {
        let mut r = self;
        r.id = String::from_str(id);
        r
    }

    /// Returns the id.
    pub fn id(&self) -> (r: &str)
        ensures
            r@ == self.id@,
    {
        self.id.as_str()
    }

    /// Build and assign the query parameters.
    pub fn build_query_parameters(self) -> (r: Self)
        ensures
            r.id == self.id,
            r.query_params@ == spec_id_query(self.id@),
    {
        let mut query_params = String::from_str("id=");
        query_params.append(self.id.as_str());
        let mut r = self;
        r.query_params = query_params;
        r
    }

    /// Returns the frozen query-parameter string.
    pub fn get_query_params(&self) -> (r: &str)
        ensures
            r@ == self.query_params@,
    {
        self.query_params.as_str()
    }
}

/// Builder for the request that deletes a video.
#[derive(Debug)]
pub struct DeleteVideo {
    /// ID of the video to be deleted.
    pub id: String,
    /// The frozen query-parameter string.
    pub query_params: String,
}

impl Default for DeleteVideo {
    fn default() -> (r: DeleteVideo)
        ensures
            r.id@ == Seq::<char>::empty(),
            r.query_params@ == Seq::<char>::empty(),
    {
        DeleteVideo { id: String::new(), query_params: String::new() }
    }
}

impl DeleteVideo {
    /// Create with the fixed default id.
    pub fn new() -> (r: DeleteVideo)
        ensures
            r.id@ == "E6UTz_Doic8"@,
            r.query_params@ == Seq::<char>::empty(),
    {
        DeleteVideo::default().parse_id("E6UTz_Doic8")
    }

    /// Parse the id to its field.
    pub fn parse_id(self, id: &str) -> (r: Self)
        ensures
            r.id@ == id@,
            r.query_params == self.query_params,
    {
        let mut r = self;
        r.id = String::from_str(id);
        r
    }

    /// Returns the id.
    pub fn id(&self) -> (r: &str)
        ensures
            r@ == self.id@,
    {
        self.id.as_str()
    }

    /// Build and assign the query parameters.
    pub fn build_query_parameters(self) -> (r: Self)
        ensures
            r.id == self.id,
            r.query_params@ == spec_id_query(self.id@),
    {
        let mut query_params = String::from_str("id=");
        query_params.append(self.id.as_str());
        let mut r = self;
        r.query_params = query_params;
        r
    }

    /// Returns the frozen query-parameter string.
    pub fn get_query_params(&self) -> (r: &str)
        ensures
            r@ == self.query_params@,
    {
        self.query_params.as_str()
    }
}

/// Builder determinism for the default delete request: whatever
/// builder holds the fixed default id, the query it freezes is exactly
/// `id=E6UTz_Doic8`.
pub proof fn lemma_delete_video_default_query(d: DeleteVideo)
    requires
        d.id@ == "E6UTz_Doic8"@,
    ensures
        spec_id_query(d.id@) == "id=E6UTz_Doic8"@,
{
    reveal_strlit("id=");
    reveal_strlit("E6UTz_Doic8");
    reveal_strlit("id=E6UTz_Doic8");
    assert(spec_id_query(d.id@) =~= "id=E6UTz_Doic8"@);
}

} // verus!
