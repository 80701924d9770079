use aarambh_vision::{latent_grid_dims, LatentShapeError};
use candle_core::{Device, Tensor};

#[test]
fn rejects_non_2d_latents() {
    let x = Tensor::randn(0f32, 1f32, (2, 16, 8), &Device::Cpu).unwrap();
    assert!(latent_grid_dims(x.dims()).is_err());
}

#[test]
fn accepts_a_token_grid() {
    let x = Tensor::randn(0f32, 1f32, (16, 8), &Device::Cpu).unwrap();
    assert_eq!(latent_grid_dims(x.dims()), Ok((16, 8)));
}

#[test]
fn refusal_keeps_the_shape_and_names_it() {
    let err = latent_grid_dims(&[2, 16, 8]).unwrap_err();
    assert_eq!(err, LatentShapeError { dims: vec![2, 16, 8] });
    assert_eq!(
        err.message(),
        "expected a 2-D [seq_len, dim] latent tensor, got shape [2, 16, 8]"
    );
}

#[test]
fn other_ranks_are_refused() {
    assert!(latent_grid_dims(&[]).is_err());
    assert!(latent_grid_dims(&[64]).is_err());
    assert!(latent_grid_dims(&[1, 2, 3, 4]).is_err());
}

#[test]
fn shape_message_writes_multi_digit_and_zero_axes() {
    let err = latent_grid_dims(&[0, 1024, 10, 7]).unwrap_err();
    assert_eq!(
        err.message(),
        "expected a 2-D [seq_len, dim] latent tensor, got shape [0, 1024, 10, 7]"
    );
    let empty = latent_grid_dims(&[]).unwrap_err();
    assert_eq!(
        empty.message(),
        "expected a 2-D [seq_len, dim] latent tensor, got shape []"
    );
}
