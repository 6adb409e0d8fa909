//! What the device does once it has tried to upload a count.

use crate::models::count::CountEntry;
use vstd::prelude::*;

verus! {

/// The device's answer to a counted event, after the upload was tried.
#[derive(Debug)]
pub enum UploadAnswer {
    /// The database took the row: answer with the count's text.
    Created { count_text: String },
    /// The database refused the row: keep it in the local store and answer
    /// with the count's text as the error.
    StoreAndRefuse { entry: CountEntry, count_text: String },
}

/// The answer once the upload of `entry` was tried; `count_text` is the count as JSON.
pub fn after_upload(uploaded: bool, entry: CountEntry, count_text: String) -> (r: UploadAnswer)
    ensures
        uploaded ==> r == (UploadAnswer::Created { count_text }),
        !uploaded ==> r == (UploadAnswer::StoreAndRefuse { entry, count_text }),
{
    if uploaded {
        UploadAnswer::Created { count_text }
    } else {
        UploadAnswer::StoreAndRefuse { entry, count_text }
    }
}

} // verus!
