//! The answer of an instance's picture service to an upload.

use vstd::prelude::*;

verus! {

/// What the picture service says of an upload: whether it went well, and
/// the files it made of it.
#[derive(Debug)]
pub struct UploadImageResponse {
    pub msg: String,
    pub files: Vec<ImageFile>,
}

/// One stored picture: the name under which it can be fetched, and the
/// token that allows deleting it.
#[derive(Debug)]
pub struct ImageFile {
    pub file: String,
    pub delete_token: String,
}

/// What an `ImageFile` holds.
pub ghost struct ImageFileView {
    pub file: Seq<char>,
    pub delete_token: Seq<char>,
}

/// What an `UploadImageResponse` holds.
pub ghost struct UploadImageResponseView {
    pub msg: Seq<char>,
    pub files: Seq<ImageFileView>,
}

impl DeepView for ImageFile {
    type V = ImageFileView;

    open spec fn deep_view(&self) -> ImageFileView {
        ImageFileView { file: self.file@, delete_token: self.delete_token@ }
    }
}

impl View for ImageFile {
    type V = ImageFileView;

    open spec fn view(&self) -> ImageFileView {
        self.deep_view()
    }
}

impl DeepView for UploadImageResponse {
    type V = UploadImageResponseView;

    open spec fn deep_view(&self) -> UploadImageResponseView {
        UploadImageResponseView { msg: self.msg@, files: self.files.deep_view() }
    }
}

impl View for UploadImageResponse {
    type V = UploadImageResponseView;

    open spec fn view(&self) -> UploadImageResponseView {
        self.deep_view()
    }
}

} // verus!
