//! Replay: looking into a capture.
//!
//! Four operations that replay a capture inside the host: listing its
//! textures, reading a pixel, and saving textures or render targets as PNG
//! files.

use vstd::prelude::*;
use crate::call::PreparedCall;
use crate::error::OperationError;
use crate::paths::{resolve_path_string_from_cwd, resolved};
use crate::toolchain::RenderDocInstallation;

verus! {

/// What [`RenderDocInstallation::replay_list_textures`] is asked.
#[derive(Debug, Clone, PartialEq, Eq)]
pub struct ReplayListTexturesRequest {
    pub capture_path: String,
    pub event_id: Option<u32>,
}

/// A [`ReplayListTexturesRequest`] as a plain value.
pub struct ReplayListTexturesRequestView {
    pub capture_path: Seq<char>,
    pub event_id: Option<u32>,
}

impl View for ReplayListTexturesRequest {
    type V = ReplayListTexturesRequestView;

    open spec fn view(&self) -> ReplayListTexturesRequestView {
        ReplayListTexturesRequestView {
            capture_path: self.capture_path@,
            event_id: self.event_id,
        }
    }
}

/// One texture of a capture.
#[derive(Debug, Clone, PartialEq, Eq)]
pub struct ReplayTextureInfo {
    pub index: u32,
    pub resource_id: u64,
    pub name: String,
    pub width: u32,
    pub height: u32,
    pub depth: u32,
    pub mips: u32,
    pub arraysize: u32,
    pub ms_samp: u32,
    pub byte_size: u64,
}

/// What [`RenderDocInstallation::replay_list_textures`] answers.
#[derive(Debug, Clone, PartialEq, Eq)]
pub struct ReplayListTexturesResponse {
    pub capture_path: String,
    pub event_id: Option<u32>,
    pub textures: Vec<ReplayTextureInfo>,
}

/// What [`RenderDocInstallation::replay_pick_pixel`] is asked.
#[derive(Debug, Clone, PartialEq, Eq)]
pub struct ReplayPickPixelRequest {
    pub capture_path: String,
    pub event_id: Option<u32>,
    pub texture_index: u32,
    pub x: u32,
    pub y: u32,
}

/// A [`ReplayPickPixelRequest`] as a plain value.
pub struct ReplayPickPixelRequestView {
    pub capture_path: Seq<char>,
    pub event_id: Option<u32>,
    pub texture_index: u32,
    pub x: u32,
    pub y: u32,
}

impl View for ReplayPickPixelRequest {
    type V = ReplayPickPixelRequestView;

    open spec fn view(&self) -> ReplayPickPixelRequestView {
        ReplayPickPixelRequestView {
            capture_path: self.capture_path@,
            event_id: self.event_id,
            texture_index: self.texture_index,
            x: self.x,
            y: self.y,
        }
    }
}

/// What [`RenderDocInstallation::replay_pick_pixel`] answers.
#[derive(Debug, Clone, PartialEq, Eq)]
pub struct ReplayPickPixelResponse {
    pub capture_path: String,
    pub event_id: Option<u32>,
    pub texture_index: u32,
    pub x: u32,
    pub y: u32,
    /// Single precision, as IEEE 754 bits.
    pub rgba: [u32; 4],
}

/// What [`RenderDocInstallation::replay_save_texture_png`] is asked.
#[derive(Debug, Clone, PartialEq, Eq)]
pub struct ReplaySaveTexturePngRequest {
    pub capture_path: String,
    pub event_id: Option<u32>,
    pub texture_index: u32,
    pub output_path: String,
}

/// A [`ReplaySaveTexturePngRequest`] as a plain value.
pub struct ReplaySaveTexturePngRequestView {
    pub capture_path: Seq<char>,
    pub event_id: Option<u32>,
    pub texture_index: u32,
    pub output_path: Seq<char>,
}

impl View for ReplaySaveTexturePngRequest {
    type V = ReplaySaveTexturePngRequestView;

    open spec fn view(&self) -> ReplaySaveTexturePngRequestView {
        ReplaySaveTexturePngRequestView {
            capture_path: self.capture_path@,
            event_id: self.event_id,
            texture_index: self.texture_index,
            output_path: self.output_path@,
        }
    }
}

/// What [`RenderDocInstallation::replay_save_texture_png`] answers.
#[derive(Debug, Clone, PartialEq, Eq)]
pub struct ReplaySaveTexturePngResponse {
    pub capture_path: String,
    pub event_id: Option<u32>,
    pub texture_index: u32,
    pub output_path: String,
}

/// What [`RenderDocInstallation::replay_save_outputs_png`] is asked.
#[derive(Debug, Clone, PartialEq, Eq)]
pub struct ReplaySaveOutputsPngRequest {
    pub capture_path: String,
    pub event_id: Option<u32>,
    pub output_dir: String,
    pub basename: String,
    pub include_depth: bool,
}

/// A [`ReplaySaveOutputsPngRequest`] as a plain value.
pub struct ReplaySaveOutputsPngRequestView {
    pub capture_path: Seq<char>,
    pub event_id: Option<u32>,
    pub output_dir: Seq<char>,
    pub basename: Seq<char>,
    pub include_depth: bool,
}

impl View for ReplaySaveOutputsPngRequest {
    type V = ReplaySaveOutputsPngRequestView;

    open spec fn view(&self) -> ReplaySaveOutputsPngRequestView {
        ReplaySaveOutputsPngRequestView {
            capture_path: self.capture_path@,
            event_id: self.event_id,
            output_dir: self.output_dir@,
            basename: self.basename@,
            include_depth: self.include_depth,
        }
    }
}

/// One image that was saved: a render target or the depth target.
#[derive(Debug, Clone, PartialEq, Eq)]
pub struct ReplaySavedImage {
    pub kind: String,
    pub index: Option<u32>,
    pub resource_id: u64,
    pub output_path: String,
}

/// What [`RenderDocInstallation::replay_save_outputs_png`] answers.
#[derive(Debug, Clone, PartialEq, Eq)]
pub struct ReplaySaveOutputsPngResponse {
    pub capture_path: String,
    pub event_id: u32,
    pub outputs: Vec<ReplaySavedImage>,
}

/// The failure of the operation that the name tells.
pub type ReplayListTexturesError = OperationError;

/// The failure of the operation that the name tells.
pub type ReplayPickPixelError = OperationError;

/// The failure of the operation that the name tells.
pub type ReplaySaveTexturePngError = OperationError;

/// The failure of the operation that the name tells.
pub type ReplaySaveOutputsPngError = OperationError;

/// The script that lists the textures of a capture.
pub const REPLAY_LIST_TEXTURES_JSON_PY: &'static str = r#"
import json
import os
import traceback

import renderdoc as rd


REQ_PATH = "replay_list_textures_json.request.json"
RESP_PATH = "replay_list_textures_json.response.json"


def write_response(obj) -> None:
    with open(RESP_PATH, "w", encoding="utf-8") as f:
        json.dump(obj, f, ensure_ascii=False)


def main() -> None:
    with open(REQ_PATH, "r", encoding="utf-8") as f:
        req = json.load(f)

    rd.InitialiseReplay(rd.GlobalEnvironment(), [])

    cap = rd.OpenCaptureFile()
    try:
        result = cap.OpenFile(req["capture_path"], "", None)
        if result != rd.ResultCode.Succeeded:
            raise RuntimeError("Couldn't open file: " + str(result))

        if not cap.LocalReplaySupport():
            raise RuntimeError("Capture cannot be replayed")

        result, controller = cap.OpenCapture(rd.ReplayOptions(), None)
        if result != rd.ResultCode.Succeeded:
            raise RuntimeError("Couldn't initialise replay: " + str(result))

        try:
            event_id = req.get("event_id", None)
            if event_id is not None:
                controller.SetFrameEvent(int(event_id), True)

            name_by_id = {}
            try:
                for r in controller.GetResources():
                    rrid = int(r.resourceId)
                    n = getattr(r, "name", None)
                    if n is None:
                        n = getattr(r, "resourceName", None)
                    if n is None:
                        continue
                    name_by_id[rrid] = str(n or "")
            except Exception:
                name_by_id = {}

            textures = controller.GetTextures()
            out = []
            for i, t in enumerate(textures):
                rid = t.resourceId
                name = name_by_id.get(int(rid), "") or ""
                try:
                    desc = controller.GetResourceDescription(rid)
                    if desc is not None:
                        if not name:
                            name = str(desc.name or "")
                except Exception:
                    pass

                arraysize = getattr(t, "arraysize", getattr(t, "arraySize", 1))
                ms_samp = getattr(t, "msSamp", getattr(t, "msSamples", 1))
                byte_size = getattr(t, "byteSize", getattr(t, "bytesize", getattr(t, "byte_size", 0)))
                out.append(
                    {
                        "index": int(i),
                        "resource_id": int(rid),
                        "name": name,
                        "width": int(t.width),
                        "height": int(t.height),
                        "depth": int(t.depth),
                        "mips": int(t.mips),
                        "arraysize": int(arraysize),
                        "ms_samp": int(ms_samp),
                        "byte_size": int(byte_size),
                    }
                )

            write_response(
                {
                    "capture_path": req["capture_path"],
                    "event_id": event_id,
                    "textures": out,
                }
            )
        finally:
            try:
                controller.Shutdown()
            except Exception:
                pass
    finally:
        try:
            cap.Shutdown()
        except Exception:
            pass
        rd.ShutdownReplay()


if __name__ == "__main__":
    try:
        main()
    except Exception:
        write_response({"ok": False, "error": traceback.format_exc()})
    else:
        # Wrap successful output written by main().
        with open(RESP_PATH, "r", encoding="utf-8") as f:
            payload = json.load(f)
        write_response({"ok": True, "result": payload})
    raise SystemExit(0)
"#;

/// The script that reads one pixel of a texture.
pub const REPLAY_PICK_PIXEL_JSON_PY: &'static str = r#"
import json
import os
import traceback

import renderdoc as rd


REQ_PATH = "replay_pick_pixel_json.request.json"
RESP_PATH = "replay_pick_pixel_json.response.json"


def write_response(obj) -> None:
    with open(RESP_PATH, "w", encoding="utf-8") as f:
        json.dump(obj, f, ensure_ascii=False)


def main() -> None:
    with open(REQ_PATH, "r", encoding="utf-8") as f:
        req = json.load(f)

    rd.InitialiseReplay(rd.GlobalEnvironment(), [])

    cap = rd.OpenCaptureFile()
    try:
        result = cap.OpenFile(req["capture_path"], "", None)
        if result != rd.ResultCode.Succeeded:
            raise RuntimeError("Couldn't open file: " + str(result))

        if not cap.LocalReplaySupport():
            raise RuntimeError("Capture cannot be replayed")

        result, controller = cap.OpenCapture(rd.ReplayOptions(), None)
        if result != rd.ResultCode.Succeeded:
            raise RuntimeError("Couldn't initialise replay: " + str(result))

        try:
            event_id = req.get("event_id", None)
            if event_id is not None:
                controller.SetFrameEvent(int(event_id), True)

            textures = controller.GetTextures()
            idx = int(req["texture_index"])
            if idx < 0 or idx >= len(textures):
                raise RuntimeError("texture_index out of range")

            t = textures[idx]
            pv = controller.PickPixel(
                t.resourceId,
                int(req["x"]),
                int(req["y"]),
                rd.Subresource(0, 0, 0),
                rd.CompType.Typeless,
            )

            rgba = [
                float(pv.floatValue[0]),
                float(pv.floatValue[1]),
                float(pv.floatValue[2]),
                float(pv.floatValue[3]),
            ]

            write_response(
                {
                    "capture_path": req["capture_path"],
                    "event_id": event_id,
                    "texture_index": int(req["texture_index"]),
                    "x": int(req["x"]),
                    "y": int(req["y"]),
                    "rgba": rgba,
                }
            )
        finally:
            try:
                controller.Shutdown()
            except Exception:
                pass
    finally:
        try:
            cap.Shutdown()
        except Exception:
            pass
        rd.ShutdownReplay()


if __name__ == "__main__":
    try:
        main()
    except Exception:
        write_response({"ok": False, "error": traceback.format_exc()})
    else:
        with open(RESP_PATH, "r", encoding="utf-8") as f:
            payload = json.load(f)
        write_response({"ok": True, "result": payload})
    raise SystemExit(0)
"#;

/// The script that saves a texture as a PNG file.
pub const REPLAY_SAVE_TEXTURE_PNG_JSON_PY: &'static str = r#"
import json
import os
import traceback

import renderdoc as rd


REQ_PATH = "replay_save_texture_png_json.request.json"
RESP_PATH = "replay_save_texture_png_json.response.json"


def write_response(obj) -> None:
    with open(RESP_PATH, "w", encoding="utf-8") as f:
        json.dump(obj, f, ensure_ascii=False)


def main() -> None:
    with open(REQ_PATH, "r", encoding="utf-8") as f:
        req = json.load(f)

    out_dir = os.path.dirname(req["output_path"])
    if out_dir:
        os.makedirs(out_dir, exist_ok=True)

    rd.InitialiseReplay(rd.GlobalEnvironment(), [])

    cap = rd.OpenCaptureFile()
    try:
        result = cap.OpenFile(req["capture_path"], "", None)
        if result != rd.ResultCode.Succeeded:
            raise RuntimeError("Couldn't open file: " + str(result))

        if not cap.LocalReplaySupport():
            raise RuntimeError("Capture cannot be replayed")

        result, controller = cap.OpenCapture(rd.ReplayOptions(), None)
        if result != rd.ResultCode.Succeeded:
            raise RuntimeError("Couldn't initialise replay: " + str(result))

        try:
            event_id = req.get("event_id", None)
            if event_id is not None:
                controller.SetFrameEvent(int(event_id), True)

            textures = controller.GetTextures()
            idx = int(req["texture_index"])
            if idx < 0 or idx >= len(textures):
                raise RuntimeError("texture_index out of range")

            t = textures[idx]

            save = rd.TextureSave()
            save.resourceId = t.resourceId
            save.destType = rd.FileType.PNG
            save.mip = 0

            result = controller.SaveTexture(save, str(req["output_path"]))
            if result != rd.ResultCode.Succeeded:
                raise RuntimeError("SaveTexture failed: " + str(result))

            write_response(
                {
                    "capture_path": req["capture_path"],
                    "event_id": event_id,
                    "texture_index": int(req["texture_index"]),
                    "output_path": str(req["output_path"]),
                }
            )
        finally:
            try:
                controller.Shutdown()
            except Exception:
                pass
    finally:
        try:
            cap.Shutdown()
        except Exception:
            pass
        rd.ShutdownReplay()


if __name__ == "__main__":
    try:
        main()
    except Exception:
        write_response({"ok": False, "error": traceback.format_exc()})
    else:
        with open(RESP_PATH, "r", encoding="utf-8") as f:
            payload = json.load(f)
        write_response({"ok": True, "result": payload})
    raise SystemExit(0)
"#;

/// The script that saves the render targets bound at an event.
pub const REPLAY_SAVE_OUTPUTS_PNG_JSON_PY: &'static str = r#"
import json
import os
import traceback

import renderdoc as rd


REQ_PATH = "replay_save_outputs_png_json.request.json"
RESP_PATH = "replay_save_outputs_png_json.response.json"


def write_response(obj) -> None:
    with open(RESP_PATH, "w", encoding="utf-8") as f:
        json.dump(obj, f, ensure_ascii=False)


def flatten_actions(actions):
    out = []
    for a in actions:
        out.append(a)
        out.extend(flatten_actions(a.children))
    return out


def pick_default_event_id(controller) -> int:
    actions = flatten_actions(controller.GetRootActions())
    if not actions:
        return 0
    return int(max(a.eventId for a in actions))


def bound_resource_id(br) -> int:
    rid = getattr(br, "resourceId", None)
    if rid is None:
        return 0
    try:
        return int(rid)
    except Exception:
        try:
            return int(rid.value)
        except Exception:
            return 0


def set_save_params_from_bound_resource(save, br):
    if hasattr(br, "firstMip"):
        try:
            save.mip = int(br.firstMip)
        except Exception:
            pass

    if hasattr(br, "firstSlice"):
        try:
            save.slice = int(br.firstSlice)
        except Exception:
            pass

    if hasattr(save, "sampleIdx"):
        try:
            save.sampleIdx = 0
        except Exception:
            pass


def main() -> None:
    with open(REQ_PATH, "r", encoding="utf-8") as f:
        req = json.load(f)

    os.makedirs(req["output_dir"], exist_ok=True)

    rd.InitialiseReplay(rd.GlobalEnvironment(), [])

    cap = rd.OpenCaptureFile()
    try:
        result = cap.OpenFile(req["capture_path"], "", None)
        if result != rd.ResultCode.Succeeded:
            raise RuntimeError("Couldn't open file: " + str(result))

        if not cap.LocalReplaySupport():
            raise RuntimeError("Capture cannot be replayed")

        result, controller = cap.OpenCapture(rd.ReplayOptions(), None)
        if result != rd.ResultCode.Succeeded:
            raise RuntimeError("Couldn't initialise replay: " + str(result))

        try:
            event_id = req.get("event_id", None)
            if event_id is None:
                event_id = pick_default_event_id(controller)

            controller.SetFrameEvent(int(event_id), True)

            pipe = controller.GetPipelineState()
            outputs = []

            for i, br in enumerate(pipe.GetOutputTargets()):
                rid = bound_resource_id(br)
                if rid == 0:
                    continue

                out_path = os.path.join(
                    req["output_dir"], f"{req['basename']}.event{int(event_id)}.rt{i}.png"
                )

                save = rd.TextureSave()
                save.resourceId = br.resourceId
                save.destType = rd.FileType.PNG
                save.mip = 0
                set_save_params_from_bound_resource(save, br)

                result = controller.SaveTexture(save, out_path)
                if result != rd.ResultCode.Succeeded:
                    raise RuntimeError("SaveTexture failed: " + str(result))

                outputs.append(
                    {
                        "kind": "color",
                        "index": int(i),
                        "resource_id": int(br.resourceId),
                        "output_path": out_path,
                    }
                )

            if bool(req.get("include_depth", False)):
                br = pipe.GetDepthTarget()
                rid = bound_resource_id(br)
                if rid != 0:
                    out_path = os.path.join(
                        req["output_dir"], f"{req['basename']}.event{int(event_id)}.depth.png"
                    )

                    save = rd.TextureSave()
                    save.resourceId = br.resourceId
                    save.destType = rd.FileType.PNG
                    save.mip = 0
                    set_save_params_from_bound_resource(save, br)

                    result = controller.SaveTexture(save, out_path)
                    if result != rd.ResultCode.Succeeded:
                        raise RuntimeError("SaveTexture(depth) failed: " + str(result))

                    outputs.append(
                        {
                            "kind": "depth",
                            "index": None,
                            "resource_id": int(br.resourceId),
                            "output_path": out_path,
                        }
                    )

            write_response(
                {
                    "capture_path": req["capture_path"],
                    "event_id": int(event_id),
                    "outputs": outputs,
                }
            )
        finally:
            try:
                controller.Shutdown()
            except Exception:
                pass
    finally:
        try:
            cap.Shutdown()
        except Exception:
            pass
        rd.ShutdownReplay()


if __name__ == "__main__":
    try:
        main()
    except Exception:
        write_response({"ok": False, "error": traceback.format_exc()})
    else:
        with open(RESP_PATH, "r", encoding="utf-8") as f:
            payload = json.load(f)
        write_response({"ok": True, "result": payload})
    raise SystemExit(0)
"#;

impl RenderDocInstallation {
    /// Lists the textures of a capture, as they are at an event.
    ///
    /// The capture is resolved against `cwd`.
    pub fn replay_list_textures(&self, cwd: &str, req: &ReplayListTexturesRequest) -> (call: PreparedCall<ReplayListTexturesRequest>)
        ensures
            call.is_for(self@, cwd@, "replay_list_textures_json"@, "replay_list_textures"@),
            call.request@ == (ReplayListTexturesRequestView {
                capture_path: resolved(cwd@, req@.capture_path),
                ..req@
            }),
    {
        let request = ReplayListTexturesRequest {
            capture_path: resolve_path_string_from_cwd(cwd, req.capture_path.as_str()),
            event_id: req.event_id,
        };
        self.prepare(cwd, "replay_list_textures_json", "replay_list_textures", request)
    }

    /// Reads one pixel of a texture.
    ///
    /// The capture is resolved against `cwd`.
    pub fn replay_pick_pixel(&self, cwd: &str, req: &ReplayPickPixelRequest) -> (call: PreparedCall<ReplayPickPixelRequest>)
        ensures
            call.is_for(self@, cwd@, "replay_pick_pixel_json"@, "replay_pick_pixel"@),
            call.request@ == (ReplayPickPixelRequestView {
                capture_path: resolved(cwd@, req@.capture_path),
                ..req@
            }),
    {
        let request = ReplayPickPixelRequest {
            capture_path: resolve_path_string_from_cwd(cwd, req.capture_path.as_str()),
            event_id: req.event_id,
            texture_index: req.texture_index,
            x: req.x,
            y: req.y,
        };
        self.prepare(cwd, "replay_pick_pixel_json", "replay_pick_pixel", request)
    }

    /// Saves a texture as a PNG file.
    ///
    /// The capture and the output file are resolved against `cwd`.
    pub fn replay_save_texture_png(&self, cwd: &str, req: &ReplaySaveTexturePngRequest) -> (call: PreparedCall<ReplaySaveTexturePngRequest>)
        ensures
            call.is_for(self@, cwd@, "replay_save_texture_png_json"@, "replay_save_texture_png"@),
            call.request@ == (ReplaySaveTexturePngRequestView {
                capture_path: resolved(cwd@, req@.capture_path),
                output_path: resolved(cwd@, req@.output_path),
                ..req@
            }),
    {
        let request = ReplaySaveTexturePngRequest {
            capture_path: resolve_path_string_from_cwd(cwd, req.capture_path.as_str()),
            event_id: req.event_id,
            texture_index: req.texture_index,
            output_path: resolve_path_string_from_cwd(cwd, req.output_path.as_str()),
        };
        self.prepare(cwd, "replay_save_texture_png_json", "replay_save_texture_png", request)
    }

    /// Saves the render targets bound at an event, and the depth target if asked
    /// for, as PNG files.
    ///
    /// The capture and the output directory are resolved against `cwd`.
    pub fn replay_save_outputs_png(&self, cwd: &str, req: &ReplaySaveOutputsPngRequest) -> (call: PreparedCall<ReplaySaveOutputsPngRequest>)
        ensures
            call.is_for(self@, cwd@, "replay_save_outputs_png_json"@, "replay_save_outputs_png"@),
            call.request@ == (ReplaySaveOutputsPngRequestView {
                capture_path: resolved(cwd@, req@.capture_path),
                output_dir: resolved(cwd@, req@.output_dir),
                ..req@
            }),
    {
        let request = ReplaySaveOutputsPngRequest {
            capture_path: resolve_path_string_from_cwd(cwd, req.capture_path.as_str()),
            event_id: req.event_id,
            output_dir: resolve_path_string_from_cwd(cwd, req.output_dir.as_str()),
            basename: req.basename.clone(),
            include_depth: req.include_depth,
        };
        self.prepare(cwd, "replay_save_outputs_png_json", "replay_save_outputs_png", request)
    }
}

} // verus!
