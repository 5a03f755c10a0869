//! Media types by file extension.

use crate::buffer::spells;
use vstd::prelude::*;
use vstd::string::StringSliceAdditionalSpecFns;

verus! {

/// The media type that a file extension stands for, if it is one of the
/// extensions this table knows. Extensions are matched byte for byte:
/// `JPG` is not `jpg`.
pub open spec fn media_type_of(extension: Seq<u8>) -> Option<&'static str> {
    if extension == "aac".spec_bytes() {
        Some("audio/aac")
    } else if extension == "avi".spec_bytes() {
        Some("video/x-msvideo")
    } else if extension == "css".spec_bytes() {
        Some("text/css")
    } else if extension == "gif".spec_bytes() {
        Some("image/gif")
    } else if extension == "jpeg".spec_bytes() || extension == "jpg".spec_bytes() {
        Some("image/jpeg")
    } else if extension == "js".spec_bytes() {
        Some("text/javascript")
    } else if extension == "json".spec_bytes() {
        Some("application/json")
    } else if extension == "mp3".spec_bytes() {
        Some("audio/mpeg")
    } else if extension == "mp4".spec_bytes() {
        Some("video/mp4")
    } else if extension == "png".spec_bytes() {
        Some("image/png")
    } else if extension == "svg".spec_bytes() {
        Some("image/svg+xml")
    } else if extension == "ttf".spec_bytes() {
        Some("font/ttf")
    } else if extension == "txt".spec_bytes() {
        Some("text/plain")
    } else if extension == "wav".spec_bytes() {
        Some("audio/wav")
    } else if extension == "webp".spec_bytes() {
        Some("image/webp")
    } else {
        None
    }
}

/// Guesses the media type of a file from its extension (without the dot).
pub fn guess(extension: &[u8]) -> (found: Option<&'static str>)
    ensures
        found == media_type_of(extension@),
{
    if spells(extension, "aac") {
        Some("audio/aac")
    } else if spells(extension, "avi") {
        Some("video/x-msvideo")
    } else if spells(extension, "css") {
        Some("text/css")
    } else if spells(extension, "gif") {
        Some("image/gif")
    } else if spells(extension, "jpeg") || spells(extension, "jpg") {
        Some("image/jpeg")
    } else if spells(extension, "js") {
        Some("text/javascript")
    } else if spells(extension, "json") {
        Some("application/json")
    } else if spells(extension, "mp3") {
        Some("audio/mpeg")
    } else if spells(extension, "mp4") {
        Some("video/mp4")
    } else if spells(extension, "png") {
        Some("image/png")
    } else if spells(extension, "svg") {
        Some("image/svg+xml")
    } else if spells(extension, "ttf") {
        Some("font/ttf")
    } else if spells(extension, "txt") {
        Some("text/plain")
    } else if spells(extension, "wav") {
        Some("audio/wav")
    } else if spells(extension, "webp") {
        Some("image/webp")
    } else {
        None
    }
}

} // verus!
