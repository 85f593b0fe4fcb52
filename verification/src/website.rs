//! The site: the pages and images it serves, and the paths it takes posts on.

use vstd::prelude::*;
use vstd::string::{StrSliceExecFns, StringExecFns};
use crate::common::PostPath;
use crate::response::{Body, Content};
use crate::text::same_text;

verus! {

/// The target of a request, as far as the site looks at it: the path, where
/// the target has one.
#[derive(Clone, Debug)]
pub struct RequestUri {
    pub path: Option<String>,
}

/// The images the site serves.
#[derive(Debug)]
pub struct Website {
    pub favicon: &'static [u8],
    pub kayaking_image: &'static [u8],
}

/// The main page.
pub const MAIN_PAGE: &'static str = r#"
<!DOCTYPE html>
<head></head>
<body>
<h1 style="color: #5e9ca0; text-align: center;">Welcome, to the First Day of Class</h1>
<p style="text-align: center;">You are hereby invited to come kayaking on the pristine waters of River Allegheny. The river, located far off to the north, beyond city limits, is a faraway place of wonder where a CMU student is a rare sight to behold. In a valley rimmed with vibrant treetops, exotic birds fly to and fro while fish dance in the water. Unlike the tumult of academic life, all elements of this valley cohere and are at harmony with one another. The river waters the plants, whose roots in turn hold the earthwork, preventing erosion; while the tree leaves provide shadow to the water and shelter to all that lives within.</p>
<p style="text-align: center;">Yet there can be no serenity without danger, for the river is swift and merciless. From the depths of the current swell monstrous rocks and boulders, creating a continuous challenge of navigation for the few voyagers who chance this way. Those fortunate enough to survive, tell tall tales of adventure.</p>
<p style="text-align: center;">This website is for fun: entirely theatrical. The location, exaggerated. All the same, kayaking is an enjoyable activity, whether you prefer strenous exertion or relaxing vacation. This school year, surely, will be a spectacular one.</p>
<ul>
<li style="text-align: left;"><strong>Date:</strong> 3 September 2022</li>
<li style="text-align: left;"><strong>Time and Place:</strong> Meet at&nbsp;12:15 PM, <em><strong>sharp,</strong></em> at Fifth &amp; Craig intersection (St. Paul's Cathedral)</li>
<li style="text-align: left;"><strong>Cost:</strong> $40, cash only</li>
</ul>
<p style="text-align: left;">To RSVP, please reply by SMS to the coordinator who linked you to this website. If you want to invite anyone else, please ask the coordinator.</p>
<p style="text-align: center;">&nbsp;</p>
<p><img style="display: block; margin-left: auto; margin-right: auto;" src="./kayaking-background.webp" alt="kayaking-image" width="1200" height="795" /></p>
<div id="spinner" style="position: relative;">
  <div class="spinner">Loading...</div>
</div>
<script type="module">
  import init from './pkg/thebestofcmu-client.js';
  init().finally(() => {
    document.getElementById("spinner").remove();
  });
</script>
<p style="text-align: right;">Source code available upon written request.</p>
</body>
</html>
    "#;

/// The path a request asks for: that of its target, or the root where the
/// target has none.
pub open spec fn path_of(request_uri: RequestUri) -> Seq<char> {
    match request_uri.path {
        Some(path) => path@,
        None => "/"@,
    }
}

/// A path without the slash it starts with, if it starts with one.
pub open spec fn without_leading_slash(path: Seq<char>) -> Seq<char> {
    if path.len() > 0 && path[0] == '/' {
        path.subrange(1, path.len() as int)
    } else {
        path
    }
}

/// The path a request asks for.
pub fn request_path(request_uri: &RequestUri) -> (path: &str)
    ensures
        path@ == path_of(*request_uri),
{
    match &request_uri.path {
        Some(path) => path.as_str(),
        None => "/",
    }
}

/// The main page.
pub fn main_page_content() -> (page: &'static str)
    ensures
        page@ == MAIN_PAGE@,
{
    MAIN_PAGE
}

impl Website {
    /// What the site serves at a path, if it serves anything there.
    pub open spec fn served_at(&self, path: Seq<char>) -> Option<Content> {
        if path == "/"@ {
            Some(Content::Text(MAIN_PAGE@))
        } else if path == "/favicon.ico"@ {
            Some(Content::Bytes(self.favicon@))
        } else if path == "/kayaking-background.webp"@ {
            Some(Content::Bytes(self.kayaking_image@))
        } else {
            None
        }
    }

    /// The path a post goes to, if the request's path names one. The slash
    /// that a path starts with does not count.
    pub fn validate_post_path(&self, request_uri: RequestUri) -> (r: Option<PostPath>)
        ensures
            r == PostPath::of_text(without_leading_slash(path_of(request_uri))),
    {
        let request_path = request_path(&request_uri);
        let length = request_path.unicode_len();
        if length > 0 && request_path.get_char(0) == '/' {
            PostPath::from_str(request_path.substring_char(1, length))
        } else {
            PostPath::from_str(request_path)
        }
    }

    /// The body the site serves for a request's path; none where the path
    /// leads nowhere.
    pub fn yield_site_body(&self, request_uri: RequestUri) -> (r: Option<Body>)
        ensures
            match r {
                Some(body) => self.served_at(path_of(request_uri)) == Some(body@),
                None => self.served_at(path_of(request_uri)) is None,
            },
    {
        let request_path = request_path(&request_uri);
        if same_text(request_path, "/") {
            Some(Body::Text(String::from_str(main_page_content())))
        } else if same_text(request_path, "/favicon.ico") {
            Some(Body::Bytes(self.favicon))
        } else if same_text(request_path, "/kayaking-background.webp") {
            Some(Body::Bytes(self.kayaking_image))
        } else {
            None
        }
    }
}

} // verus!
