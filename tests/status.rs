use lax::buffer::{workspace_len, OutputBuffer, MAX_WORKSPACE};
use lax::error::{check_status, LapackError, PositiveStatus};

#[test]
fn status_codes_map_to_typed_errors() {
    assert_eq!(check_status(0, PositiveStatus::Singular), Ok(()));
    assert_eq!(check_status(-4, PositiveStatus::Singular), Err(LapackError::InvalidValue(4)));
    assert_eq!(check_status(3, PositiveStatus::Singular), Err(LapackError::SingularMatrix(3)));
    assert_eq!(check_status(2, PositiveStatus::NotConverged), Err(LapackError::NotConverged(2)));
    assert_eq!(check_status(i32::MIN, PositiveStatus::NotConverged), Err(LapackError::InvalidValue(2147483648)));
}

#[test]
fn output_buffer_is_released_only_on_success() {
    let mut b: OutputBuffer<i32> = OutputBuffer::reserve(3, 0);
    assert_eq!(b.len(), 3);
    {
        let t = b.native_target();
        t[0] = 2;
        t[1] = 2;
        t[2] = 3;
    }
    assert_eq!(b.into_filled(0, PositiveStatus::Singular), Ok(vec![2, 2, 3]));
    let mut c: OutputBuffer<i32> = OutputBuffer::reserve(2, 0);
    c.native_target()[0] = 1;
    assert_eq!(c.into_filled(2, PositiveStatus::Singular), Err(LapackError::SingularMatrix(2)));
    let d: OutputBuffer<i32> = OutputBuffer::reserve(0, 0);
    assert_eq!(d.into_filled(-1, PositiveStatus::NotConverged), Err(LapackError::InvalidValue(1)));
}

#[test]
fn workspace_query_sizes() {
    assert_eq!(workspace_len(0, Some(64), PositiveStatus::NotConverged), Ok(64));
    assert_eq!(workspace_len(0, Some(0), PositiveStatus::NotConverged), Ok(1));
    assert_eq!(workspace_len(0, None, PositiveStatus::NotConverged), Err(LapackError::MemoryAllocation));
    assert_eq!(
        workspace_len(0, Some(MAX_WORKSPACE + 1), PositiveStatus::NotConverged),
        Err(LapackError::MemoryAllocation)
    );
    assert_eq!(workspace_len(0, Some(MAX_WORKSPACE), PositiveStatus::NotConverged), Ok(MAX_WORKSPACE));
    assert_eq!(workspace_len(-7, Some(64), PositiveStatus::NotConverged), Err(LapackError::InvalidValue(7)));
}
