use crate::model::Platform;
use vstd::prelude::*;

verus! {

/// An event published to every part of the application.
#[derive(Debug, PartialEq, Eq)]
pub struct Announcement {
    pub event: String,
    pub payload: String,
}

/// The name under which a custom-scheme request is published.
pub open spec fn scheme_event() -> Seq<char> {
    "scheme-request"@
}

/// The request that a starting process finds on its command line: its first
/// argument, the one after the program's name, where the system does not hand
/// over scheme requests at launch by itself.
pub open spec fn launch_argument(platform: Platform, arguments: Seq<String>) -> Option<String> {
    if !platform.launch_scheme && arguments.len() > 1 {
        Some(arguments[1])
    } else {
        None
    }
}

/// Publishes a custom-scheme request as it came in.
pub fn on_scheme_request(request: String) -> (announcement: Announcement)
    ensures
        announcement.event@ == scheme_event(),
        announcement.payload == request,
{
    Announcement { event: "scheme-request".to_owned(), payload: request }
}

/// Finds the request on the command line of a starting process; `arguments`
/// begins with the program's name.
pub fn launch_request(platform: Platform, arguments: &Vec<String>) -> (request: Option<String>)
    ensures
        request == launch_argument(platform, arguments@),
{
    if !platform.launch_scheme && arguments.len() > 1 {
        Some(arguments[1].clone())
    } else {
        None
    }
}

/// Publishes the request on the command line of a starting process, if there is one.
pub fn on_launch(platform: Platform, arguments: &Vec<String>) -> (announcement: Option<Announcement>)
    ensures
        match announcement {
            Some(announcement) => launch_argument(platform, arguments@) == Some(
                announcement.payload,
            ) && announcement.event@ == scheme_event(),
            None => launch_argument(platform, arguments@) is None,
        },
{
    match launch_request(platform, arguments) {
        Some(request) => Some(on_scheme_request(request)),
        None => None,
    }
}

} // verus!
