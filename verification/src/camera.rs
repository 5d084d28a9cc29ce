//! The camera entity that association records point to.

use vstd::prelude::*;
use crate::ident::Uuid;

verus! {

/// A camera: its identifier and its display name.
#[derive(Debug, PartialEq, Eq)]
pub struct Camera {
    pub camera_id: Uuid,
    pub name: String,
}

/// A camera as a mathematical value: the name is the sequence of its
/// characters.
pub struct CameraView {
    pub camera_id: Uuid,
    pub name: Seq<char>,
}

impl View for Camera {
    type V = CameraView;

    open spec fn view(&self) -> CameraView {
        CameraView { camera_id: self.camera_id, name: self.name@ }
    }
}

impl Clone for Camera {
    fn clone(&self) -> (copy: Camera)
        ensures
            copy == *self,
    {
        Camera { camera_id: self.camera_id, name: self.name.clone() }
    }
}

/// The views of a sequence of cameras, in the same order.
pub open spec fn camera_views(cameras: Seq<Camera>) -> Seq<CameraView> {
    cameras.map_values(|camera: Camera| camera@)
}

/// Whether a camera with the given identifier occurs in the sequence.
pub open spec fn lists_camera(cameras: Seq<CameraView>, camera_id: Uuid) -> bool {
    exists|i: int| 0 <= i < cameras.len() && (#[trigger] cameras[i]).camera_id == camera_id
}

} // verus!
