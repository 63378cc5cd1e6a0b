use vr_overlay::error::{Argument, Capability, NativeOp, OverlayError};
use vr_overlay::surface::{
    check_no_nul, check_status, handle_to_i64, head_relative_transform, interface_usable, intersection_result,
    matrix34_from_row_major, overlay_handle, relative_transform, resolve_interface_version, vec3,
    IntersectionResult,
};

#[test]
fn overlay_handles() {
    assert_eq!(overlay_handle(0), Ok(0));
    assert_eq!(overlay_handle(12345), Ok(12345));
    assert_eq!(overlay_handle(-1), Err(OverlayError::InvalidOverlayHandle));
    assert_eq!(handle_to_i64(7), Ok(7));
    assert_eq!(handle_to_i64(i64::MAX as u64), Ok(i64::MAX));
    assert_eq!(handle_to_i64(u64::MAX), Err(OverlayError::InvalidOverlayHandle));
}

#[test]
fn native_status_mapping() {
    assert_eq!(check_status(NativeOp::HideOverlay, 0), Ok(()));
    assert_eq!(
        check_status(NativeOp::SetOverlayRaw, 10),
        Err(OverlayError::NativeOperationFailed(NativeOp::SetOverlayRaw, 10))
    );
}

#[test]
fn interface_versions() {
    let default = b"FnTable:IVROverlay_028".to_vec();
    assert_eq!(resolve_interface_version(None, default.clone(), Capability::Overlay), Ok(default.clone()));
    assert_eq!(resolve_interface_version(Some(Vec::new()), default.clone(), Capability::Overlay), Ok(default.clone()));
    assert_eq!(
        resolve_interface_version(Some(b"FnTable:IVROverlay_027".to_vec()), default.clone(), Capability::Overlay),
        Ok(b"FnTable:IVROverlay_027".to_vec())
    );
    assert_eq!(
        resolve_interface_version(Some(b"bad\0name".to_vec()), default, Capability::System),
        Err(OverlayError::InvalidConfiguration(Capability::System))
    );
    assert!(interface_usable(true, 0));
    assert!(!interface_usable(false, 0));
    assert!(!interface_usable(true, 3));
}

#[test]
fn string_arguments() {
    assert_eq!(check_no_nul(b"overlay.key", Argument::OverlayKey), Ok(()));
    assert_eq!(check_no_nul(b"a\0b", Argument::OverlayName), Err(OverlayError::EmbeddedNul(Argument::OverlayName)));
}

#[test]
fn vectors_and_matrices() {
    assert_eq!(vec3(&[1.0, 2.0, 3.0], Argument::RaySource), Ok([1.0, 2.0, 3.0]));
    assert_eq!(
        vec3(&[1.0, 2.0], Argument::RayDirection),
        Err(OverlayError::InvalidArgumentLength { argument: Argument::RayDirection, expected: 3, actual: 2 })
    );
    let flat: Vec<f64> = (0..16).map(|i| i as f64).collect();
    assert_eq!(
        matrix34_from_row_major(&flat),
        Ok([[0.0, 1.0, 2.0, 3.0], [4.0, 5.0, 6.0, 7.0], [8.0, 9.0, 10.0, 11.0]])
    );
    assert_eq!(
        matrix34_from_row_major(&flat[..15]),
        Err(OverlayError::InvalidArgumentLength { argument: Argument::Matrix, expected: 16, actual: 15 })
    );
    assert_eq!(
        head_relative_transform(0.0f32, 1.0, -2.0),
        [[1.0, 0.0, 0.0, 0.0], [0.0, 1.0, 0.0, 0.0], [0.0, 0.0, 1.0, -2.0]]
    );
}

#[test]
fn relative_transform_and_intersection() {
    let t = relative_transform(3, &[[1, 2, 3, 4], [5, 6, 7, 8], [9, 10, 11, 12]], 0, 1);
    assert_eq!(t.tracked_device_index, 3);
    assert_eq!(t.transform, vec![1, 2, 3, 4, 5, 6, 7, 8, 9, 10, 11, 12, 0, 0, 0, 1]);
    assert_eq!(intersection_result(false, [1.0, 2.0, 3.0], [0.5, 0.25], 4.0), None);
    assert_eq!(
        intersection_result(true, [1.0, 2.0, 3.0], [0.5, 0.25], 4.0),
        Some(IntersectionResult { x: 1.0, y: 2.0, z: 3.0, u: 0.5, v: 0.25, distance: 4.0 })
    );
}
