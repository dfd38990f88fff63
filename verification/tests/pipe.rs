use worldtwist::ImagePipe;
use worldtwist::RenderedRaster;

fn raster(tag: u8) -> RenderedRaster {
    RenderedRaster { width: 1, height: 1, rgba: vec![tag, 0, 0, 255] }
}

#[test]
fn take_before_deposit_returns_nothing() {
    let mut pipe = ImagePipe::new();
    assert!(pipe.maybe_get().is_none());
    assert!(pipe.maybe_get().is_none());
}

#[test]
fn one_deposit_one_take() {
    let mut pipe = ImagePipe::new();
    pipe.accept(raster(7));
    let first = pipe.maybe_get().expect("a deposited image must be taken");
    assert_eq!(first.rgba, vec![7, 0, 0, 255]);
    assert!(pipe.maybe_get().is_none());
}

#[test]
fn last_deposit_wins() {
    let mut pipe = ImagePipe::new();
    pipe.accept(raster(1));
    pipe.accept(raster(2));
    let taken = pipe.maybe_get().expect("the second image must be pending");
    assert_eq!(taken.rgba, vec![2, 0, 0, 255]);
    assert!(pipe.maybe_get().is_none());
}

#[test]
fn cancel_is_advisory_only() {
    let mut pipe = ImagePipe::new();
    pipe.cancel();
    assert!(pipe.cancelled);
    pipe.accept(raster(9));
    let taken = pipe.maybe_get().expect("a cancelled pipe still hands results over");
    assert_eq!(taken.rgba, vec![9, 0, 0, 255]);
}

#[test]
fn cursors_advance_on_deposit_and_level_on_take() {
    let mut pipe = ImagePipe::new();
    assert_eq!(pipe.read_cursor, 0);
    assert_eq!(pipe.write_cursor, 0);
    pipe.accept(raster(3));
    assert_eq!(pipe.write_cursor, 1);
    assert_eq!(pipe.read_cursor, 0);
    let _ = pipe.maybe_get();
    assert_eq!(pipe.read_cursor, pipe.write_cursor);
}

#[test]
fn default_pipe_is_fresh() {
    let mut pipe = ImagePipe::default();
    assert!(!pipe.cancelled);
    assert!(pipe.maybe_get().is_none());
}
