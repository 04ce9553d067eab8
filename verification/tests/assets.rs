use hummingbird::assets::loaded_image;
use hummingbird::text::format_album_thumbnail_path;
use hummingbird::assets::{
    asset_request, parse_i64, resolve_asset, AlbumImage, AssetError, AssetRequest,
};

#[test]
fn parses_integers_like_std() {
    for s in ["0", "42", "-7", "+9", "-0", "9223372036854775807", "-9223372036854775808"] {
        assert_eq!(parse_i64(s), s.parse::<i64>().ok(), "{s}");
    }
    for s in ["", "-", "+", "1a", " 1", "9223372036854775808", "-9223372036854775809", "99999999999999999999999"] {
        assert_eq!(parse_i64(s), None, "{s}");
        assert!(s.parse::<i64>().is_err());
    }
}

#[test]
fn album_thumbnails_and_art() {
    assert_eq!(
        asset_request("db://album/12/thumb"),
        Ok(Some(AssetRequest { album_id: 12, image: AlbumImage::Thumb }))
    );
    assert_eq!(
        asset_request("db://album/-4/full"),
        Ok(Some(AssetRequest { album_id: -4, image: AlbumImage::Full }))
    );
}

#[test]
fn other_tables_have_no_pictures() {
    assert_eq!(asset_request("db://artist/1/thumb"), Ok(None));
}

#[test]
fn asset_errors() {
    assert_eq!(asset_request("mailto:someone"), Err(AssetError::MissingTableName));
    assert_eq!(asset_request("db://album"), Err(AssetError::MissingPath));
    assert_eq!(asset_request("db://album/"), Err(AssetError::InvalidId));
    assert_eq!(asset_request("db://album/x/thumb"), Err(AssetError::InvalidId));
    assert_eq!(asset_request("db://album/12"), Err(AssetError::MissingImageType));
    assert_eq!(asset_request("db://album/12/huge"), Err(AssetError::UnsupportedImageType));
}

#[test]
fn resolve_from_parts() {
    assert_eq!(resolve_asset(None, None), Err(AssetError::MissingTableName));
    assert_eq!(
        resolve_asset(Some("album".to_string()), Some(vec![])),
        Err(AssetError::MissingId)
    );
    assert_eq!(
        resolve_asset(
            Some("album".to_string()),
            Some(vec!["5".to_string(), "full".to_string(), "extra".to_string()])
        ),
        Ok(Some(AssetRequest { album_id: 5, image: AlbumImage::Full }))
    );
}

#[test]
fn every_thumbnail_path_names_its_thumbnail() {
    for id in [0i64, 7, -3, 1234567, i64::MAX, i64::MIN] {
        let path = format_album_thumbnail_path(id);
        let request = asset_request(path.strip_prefix('!').unwrap()).unwrap().unwrap();
        assert_eq!(request.album_id, id);
        assert!(matches!(request.image, AlbumImage::Thumb));
    }
    assert_eq!(loaded_image(vec![]), None);
    assert_eq!(loaded_image(vec![1, 2]), Some(vec![1, 2]));
}
