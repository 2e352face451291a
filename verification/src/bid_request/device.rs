//! The device of the user and where it is.

use crate::bool::Bool;
use crate::error::{DecodeError, DecodeErrorView};
use crate::json::{Json, JsonView, Number, NumberView};
use crate::object::{
    encode_opt, lemma_opt_field_round_trip, lemma_other_key, lemma_other_key_raw, Members,
    ObjectWriter, opt_field, opt_view, raw_field, read_members, read_opt_field, read_raw_field,
    Record,
};
use crate::text::lemma_head;
use crate::vocabulary::context::{ConnectionType, DeviceType, LocationService, LocationType};
use crate::wire::{Wire, wrong_type};
use vstd::prelude::*;

verus! {

/// The device through which the user interacts: its hardware, platform, location
/// and carrier.
#[derive(Clone, Debug, PartialEq)]
pub struct Device {
    /// Location of the device assumed to be the user's current location defined by a Geo
    /// object (Section 3.2.12).
    pub geo: Option<Geo>,
    /// Standard "Do Not Track" flag as set in the header by the browser, where false =
    /// tracking is unrestricted, true = do not track.
    pub dnt: Option<Bool>,
    /// "Limit Ad Tracking" signal commercially endorsed (e.g., iOS, Android), where false =
    /// tracking is unrestricted, true = tracking must be limited per commercial guidelines.
    pub lmt: Option<Bool>,
    /// Browser user agent string. Certain data may be redacted or replaced.
    pub ua: Option<String>,
    /// IPv4 address closest to device.
    pub ip: Option<String>,
    /// IPv6 address closest to device.
    pub ipv6: Option<String>,
    /// The general type of device.
    pub devicetype: Option<DeviceType>,
    /// Device make (e.g., "Apple").
    pub make: Option<String>,
    /// Device model (e.g., "iPhone").
    pub model: Option<String>,
    /// Device operating system (e.g., "iOS").
    pub os: Option<String>,
    /// Device operating system version (e.g., "3.1.2").
    pub osv: Option<String>,
    /// Hardware version of the device (e.g., "5S" for iPhone 5S).
    pub hwv: Option<String>,
    /// Physical width of the screen in pixels.
    pub w: Option<i32>,
    /// Physical height of the screen in pixels.
    pub h: Option<i32>,
    /// Screen size as pixels per linear inch.
    pub ppi: Option<i32>,
    /// The ratio of physical pixels to device independent pixels.
    pub pxratio: Option<Number>,
    /// Support for JavaScript.
    pub js: Option<Bool>,
    /// Indicates if the geolocation API will be available to JavaScript code running in the
    /// banner.
    pub geofetch: Option<Bool>,
    /// Version of Flash supported by the browser.
    pub flashver: Option<String>,
    /// Browser language using ISO-639-1-alpha-2.
    pub language: Option<String>,
    /// Carrier or ISP (e.g., "VERIZON") using exchange curated string names which should be
    /// published to bidders a priori.
    pub carrier: Option<String>,
    /// Mobile carrier as the concatenated MCC-MNC code (e.g., "310-005" identifies Verizon
    /// Wireless CDMA in the USA). Refer to
    /// https://en.wikipedia.org/wiki/Mobile_country_code for further examples.
    pub mccmnc: Option<String>,
    /// Network connection type.
    pub connectiontype: Option<ConnectionType>,
    /// ID sanctioned for advertiser use in the clear (i.e., not hashed).
    pub ifa: Option<String>,
    /// Hardware device ID (e.g., IMEI); hashed via SHA1.
    pub didsha1: Option<String>,
    /// Hardware device ID (e.g., IMEI); hashed via MD5.
    pub didmd5: Option<String>,
    /// Platform device ID (e.g., Android ID); hashed via SHA1.
    pub dpidsha1: Option<String>,
    /// Platform device ID (e.g., Android ID); hashed via MD5.
    pub dpidmd5: Option<String>,
    /// MAC address of the device; hashed via SHA1.
    pub macsha1: Option<String>,
    /// MAC address of the device; hashed via MD5.
    pub macmd5: Option<String>,
    /// Vendor extensions, carried as they are.
    pub ext: Option<Json>,
}

/// The mathematical value of a [`Device`].
pub struct DeviceView {
    pub geo: Option<GeoView>,
    pub dnt: Option<Bool>,
    pub lmt: Option<Bool>,
    pub ua: Option<Seq<char>>,
    pub ip: Option<Seq<char>>,
    pub ipv6: Option<Seq<char>>,
    pub devicetype: Option<DeviceType>,
    pub make: Option<Seq<char>>,
    pub model: Option<Seq<char>>,
    pub os: Option<Seq<char>>,
    pub osv: Option<Seq<char>>,
    pub hwv: Option<Seq<char>>,
    pub w: Option<i32>,
    pub h: Option<i32>,
    pub ppi: Option<i32>,
    pub pxratio: Option<NumberView>,
    pub js: Option<Bool>,
    pub geofetch: Option<Bool>,
    pub flashver: Option<Seq<char>>,
    pub language: Option<Seq<char>>,
    pub carrier: Option<Seq<char>>,
    pub mccmnc: Option<Seq<char>>,
    pub connectiontype: Option<ConnectionType>,
    pub ifa: Option<Seq<char>>,
    pub didsha1: Option<Seq<char>>,
    pub didmd5: Option<Seq<char>>,
    pub dpidsha1: Option<Seq<char>>,
    pub dpidmd5: Option<Seq<char>>,
    pub macsha1: Option<Seq<char>>,
    pub macmd5: Option<Seq<char>>,
    pub ext: Option<JsonView>,
}

impl DeepView for Device {
    type V = DeviceView;

    open spec fn deep_view(&self) -> DeviceView {
        DeviceView {
            geo: opt_view(self.geo),
            dnt: opt_view(self.dnt),
            lmt: opt_view(self.lmt),
            ua: opt_view(self.ua),
            ip: opt_view(self.ip),
            ipv6: opt_view(self.ipv6),
            devicetype: opt_view(self.devicetype),
            make: opt_view(self.make),
            model: opt_view(self.model),
            os: opt_view(self.os),
            osv: opt_view(self.osv),
            hwv: opt_view(self.hwv),
            w: opt_view(self.w),
            h: opt_view(self.h),
            ppi: opt_view(self.ppi),
            pxratio: opt_view(self.pxratio),
            js: opt_view(self.js),
            geofetch: opt_view(self.geofetch),
            flashver: opt_view(self.flashver),
            language: opt_view(self.language),
            carrier: opt_view(self.carrier),
            mccmnc: opt_view(self.mccmnc),
            connectiontype: opt_view(self.connectiontype),
            ifa: opt_view(self.ifa),
            didsha1: opt_view(self.didsha1),
            didmd5: opt_view(self.didmd5),
            dpidsha1: opt_view(self.dpidsha1),
            dpidmd5: opt_view(self.dpidmd5),
            macsha1: opt_view(self.macsha1),
            macmd5: opt_view(self.macmd5),
            ext: opt_view(self.ext),
        }
    }
}

impl DeviceView {
    /// The value in which every optional field is absent and every required
    /// field is empty or zero.
    pub open spec fn empty() -> DeviceView {
        DeviceView {
            geo: None,
            dnt: None,
            lmt: None,
            ua: None,
            ip: None,
            ipv6: None,
            devicetype: None,
            make: None,
            model: None,
            os: None,
            osv: None,
            hwv: None,
            w: None,
            h: None,
            ppi: None,
            pxratio: None,
            js: None,
            geofetch: None,
            flashver: None,
            language: None,
            carrier: None,
            mccmnc: None,
            connectiontype: None,
            ifa: None,
            didsha1: None,
            didmd5: None,
            dpidsha1: None,
            dpidmd5: None,
            macsha1: None,
            macmd5: None,
            ext: None,
        }
    }
}

impl Default for Device {
    fn default() -> (value: Device)
        ensures
            value.deep_view() == DeviceView::empty(),
    {
        let value = Device {
            geo: None,
            dnt: None,
            lmt: None,
            ua: None,
            ip: None,
            ipv6: None,
            devicetype: None,
            make: None,
            model: None,
            os: None,
            osv: None,
            hwv: None,
            w: None,
            h: None,
            ppi: None,
            pxratio: None,
            js: None,
            geofetch: None,
            flashver: None,
            language: None,
            carrier: None,
            mccmnc: None,
            connectiontype: None,
            ifa: None,
            didsha1: None,
            didmd5: None,
            dpidsha1: None,
            dpidmd5: None,
            macsha1: None,
            macmd5: None,
            ext: None,
        };
        proof {
            reveal(opt_view);
        }
        value
    }
}

impl Wire for Device {
    open spec fn encode_spec(value: DeviceView) -> JsonView {
        Members::empty()
            .with_opt("geo"@, encode_opt::<Geo>(value.geo))
            .with_opt("dnt"@, encode_opt::<Bool>(value.dnt))
            .with_opt("lmt"@, encode_opt::<Bool>(value.lmt))
            .with_opt("ua"@, encode_opt::<String>(value.ua))
            .with_opt("ip"@, encode_opt::<String>(value.ip))
            .with_opt("ipv6"@, encode_opt::<String>(value.ipv6))
            .with_opt("devicetype"@, encode_opt::<DeviceType>(value.devicetype))
            .with_opt("make"@, encode_opt::<String>(value.make))
            .with_opt("model"@, encode_opt::<String>(value.model))
            .with_opt("os"@, encode_opt::<String>(value.os))
            .with_opt("osv"@, encode_opt::<String>(value.osv))
            .with_opt("hwv"@, encode_opt::<String>(value.hwv))
            .with_opt("w"@, encode_opt::<i32>(value.w))
            .with_opt("h"@, encode_opt::<i32>(value.h))
            .with_opt("ppi"@, encode_opt::<i32>(value.ppi))
            .with_opt("pxratio"@, encode_opt::<Number>(value.pxratio))
            .with_opt("js"@, encode_opt::<Bool>(value.js))
            .with_opt("geofetch"@, encode_opt::<Bool>(value.geofetch))
            .with_opt("flashver"@, encode_opt::<String>(value.flashver))
            .with_opt("language"@, encode_opt::<String>(value.language))
            .with_opt("carrier"@, encode_opt::<String>(value.carrier))
            .with_opt("mccmnc"@, encode_opt::<String>(value.mccmnc))
            .with_opt("connectiontype"@, encode_opt::<ConnectionType>(value.connectiontype))
            .with_opt("ifa"@, encode_opt::<String>(value.ifa))
            .with_opt("didsha1"@, encode_opt::<String>(value.didsha1))
            .with_opt("didmd5"@, encode_opt::<String>(value.didmd5))
            .with_opt("dpidsha1"@, encode_opt::<String>(value.dpidsha1))
            .with_opt("dpidmd5"@, encode_opt::<String>(value.dpidmd5))
            .with_opt("macsha1"@, encode_opt::<String>(value.macsha1))
            .with_opt("macmd5"@, encode_opt::<String>(value.macmd5))
            .with_opt("ext"@, value.ext)
            .json()
    }

    open spec fn decode_spec(doc: JsonView) -> Result<DeviceView, DecodeErrorView> {
        match doc {
            JsonView::Object(members) => {
                let geo = opt_field::<Geo>(members, "geo"@);
                let dnt = opt_field::<Bool>(members, "dnt"@);
                let lmt = opt_field::<Bool>(members, "lmt"@);
                let ua = opt_field::<String>(members, "ua"@);
                let ip = opt_field::<String>(members, "ip"@);
                let ipv6 = opt_field::<String>(members, "ipv6"@);
                let devicetype = opt_field::<DeviceType>(members, "devicetype"@);
                let make = opt_field::<String>(members, "make"@);
                let model = opt_field::<String>(members, "model"@);
                let os = opt_field::<String>(members, "os"@);
                let osv = opt_field::<String>(members, "osv"@);
                let hwv = opt_field::<String>(members, "hwv"@);
                let w = opt_field::<i32>(members, "w"@);
                let h = opt_field::<i32>(members, "h"@);
                let ppi = opt_field::<i32>(members, "ppi"@);
                let pxratio = opt_field::<Number>(members, "pxratio"@);
                let js = opt_field::<Bool>(members, "js"@);
                let geofetch = opt_field::<Bool>(members, "geofetch"@);
                let flashver = opt_field::<String>(members, "flashver"@);
                let language = opt_field::<String>(members, "language"@);
                let carrier = opt_field::<String>(members, "carrier"@);
                let mccmnc = opt_field::<String>(members, "mccmnc"@);
                let connectiontype = opt_field::<ConnectionType>(members, "connectiontype"@);
                let ifa = opt_field::<String>(members, "ifa"@);
                let didsha1 = opt_field::<String>(members, "didsha1"@);
                let didmd5 = opt_field::<String>(members, "didmd5"@);
                let dpidsha1 = opt_field::<String>(members, "dpidsha1"@);
                let dpidmd5 = opt_field::<String>(members, "dpidmd5"@);
                let macsha1 = opt_field::<String>(members, "macsha1"@);
                let macmd5 = opt_field::<String>(members, "macmd5"@);
                let ext = raw_field(members, "ext"@);
                if geo is Err {
                    Err(geo->Err_0)
                } else if dnt is Err {
                    Err(dnt->Err_0)
                } else if lmt is Err {
                    Err(lmt->Err_0)
                } else if ua is Err {
                    Err(ua->Err_0)
                } else if ip is Err {
                    Err(ip->Err_0)
                } else if ipv6 is Err {
                    Err(ipv6->Err_0)
                } else if devicetype is Err {
                    Err(devicetype->Err_0)
                } else if make is Err {
                    Err(make->Err_0)
                } else if model is Err {
                    Err(model->Err_0)
                } else if os is Err {
                    Err(os->Err_0)
                } else if osv is Err {
                    Err(osv->Err_0)
                } else if hwv is Err {
                    Err(hwv->Err_0)
                } else if w is Err {
                    Err(w->Err_0)
                } else if h is Err {
                    Err(h->Err_0)
                } else if ppi is Err {
                    Err(ppi->Err_0)
                } else if pxratio is Err {
                    Err(pxratio->Err_0)
                } else if js is Err {
                    Err(js->Err_0)
                } else if geofetch is Err {
                    Err(geofetch->Err_0)
                } else if flashver is Err {
                    Err(flashver->Err_0)
                } else if language is Err {
                    Err(language->Err_0)
                } else if carrier is Err {
                    Err(carrier->Err_0)
                } else if mccmnc is Err {
                    Err(mccmnc->Err_0)
                } else if connectiontype is Err {
                    Err(connectiontype->Err_0)
                } else if ifa is Err {
                    Err(ifa->Err_0)
                } else if didsha1 is Err {
                    Err(didsha1->Err_0)
                } else if didmd5 is Err {
                    Err(didmd5->Err_0)
                } else if dpidsha1 is Err {
                    Err(dpidsha1->Err_0)
                } else if dpidmd5 is Err {
                    Err(dpidmd5->Err_0)
                } else if macsha1 is Err {
                    Err(macsha1->Err_0)
                } else if macmd5 is Err {
                    Err(macmd5->Err_0)
                } else {
                    Ok(
                        DeviceView {
                            geo: geo->Ok_0,
                            dnt: dnt->Ok_0,
                            lmt: lmt->Ok_0,
                            ua: ua->Ok_0,
                            ip: ip->Ok_0,
                            ipv6: ipv6->Ok_0,
                            devicetype: devicetype->Ok_0,
                            make: make->Ok_0,
                            model: model->Ok_0,
                            os: os->Ok_0,
                            osv: osv->Ok_0,
                            hwv: hwv->Ok_0,
                            w: w->Ok_0,
                            h: h->Ok_0,
                            ppi: ppi->Ok_0,
                            pxratio: pxratio->Ok_0,
                            js: js->Ok_0,
                            geofetch: geofetch->Ok_0,
                            flashver: flashver->Ok_0,
                            language: language->Ok_0,
                            carrier: carrier->Ok_0,
                            mccmnc: mccmnc->Ok_0,
                            connectiontype: connectiontype->Ok_0,
                            ifa: ifa->Ok_0,
                            didsha1: didsha1->Ok_0,
                            didmd5: didmd5->Ok_0,
                            dpidsha1: dpidsha1->Ok_0,
                            dpidmd5: dpidmd5->Ok_0,
                            macsha1: macsha1->Ok_0,
                            macmd5: macmd5->Ok_0,
                            ext,
                        },
                    )
                }
            },
            _ => wrong_type(),
        }
    }

    fn encode(&self) -> (doc: Json) {
        let mut object = ObjectWriter::new();
        object.opt_field("geo", &self.geo);
        object.opt_field("dnt", &self.dnt);
        object.opt_field("lmt", &self.lmt);
        object.opt_field("ua", &self.ua);
        object.opt_field("ip", &self.ip);
        object.opt_field("ipv6", &self.ipv6);
        object.opt_field("devicetype", &self.devicetype);
        object.opt_field("make", &self.make);
        object.opt_field("model", &self.model);
        object.opt_field("os", &self.os);
        object.opt_field("osv", &self.osv);
        object.opt_field("hwv", &self.hwv);
        object.opt_field("w", &self.w);
        object.opt_field("h", &self.h);
        object.opt_field("ppi", &self.ppi);
        object.opt_field("pxratio", &self.pxratio);
        object.opt_field("js", &self.js);
        object.opt_field("geofetch", &self.geofetch);
        object.opt_field("flashver", &self.flashver);
        object.opt_field("language", &self.language);
        object.opt_field("carrier", &self.carrier);
        object.opt_field("mccmnc", &self.mccmnc);
        object.opt_field("connectiontype", &self.connectiontype);
        object.opt_field("ifa", &self.ifa);
        object.opt_field("didsha1", &self.didsha1);
        object.opt_field("didmd5", &self.didmd5);
        object.opt_field("dpidsha1", &self.dpidsha1);
        object.opt_field("dpidmd5", &self.dpidmd5);
        object.opt_field("macsha1", &self.macsha1);
        object.opt_field("macmd5", &self.macmd5);
        object.raw_field("ext", &self.ext);
        object.finish()
    }

    fn decode(doc: &Json) -> (result: Result<Device, DecodeError>) {
        let members = read_members(doc)?;
        let geo = read_opt_field::<Geo>(members, "geo")?;
        let dnt = read_opt_field::<Bool>(members, "dnt")?;
        let lmt = read_opt_field::<Bool>(members, "lmt")?;
        let ua = read_opt_field::<String>(members, "ua")?;
        let ip = read_opt_field::<String>(members, "ip")?;
        let ipv6 = read_opt_field::<String>(members, "ipv6")?;
        let devicetype = read_opt_field::<DeviceType>(members, "devicetype")?;
        let make = read_opt_field::<String>(members, "make")?;
        let model = read_opt_field::<String>(members, "model")?;
        let os = read_opt_field::<String>(members, "os")?;
        let osv = read_opt_field::<String>(members, "osv")?;
        let hwv = read_opt_field::<String>(members, "hwv")?;
        let w = read_opt_field::<i32>(members, "w")?;
        let h = read_opt_field::<i32>(members, "h")?;
        let ppi = read_opt_field::<i32>(members, "ppi")?;
        let pxratio = read_opt_field::<Number>(members, "pxratio")?;
        let js = read_opt_field::<Bool>(members, "js")?;
        let geofetch = read_opt_field::<Bool>(members, "geofetch")?;
        let flashver = read_opt_field::<String>(members, "flashver")?;
        let language = read_opt_field::<String>(members, "language")?;
        let carrier = read_opt_field::<String>(members, "carrier")?;
        let mccmnc = read_opt_field::<String>(members, "mccmnc")?;
        let connectiontype = read_opt_field::<ConnectionType>(members, "connectiontype")?;
        let ifa = read_opt_field::<String>(members, "ifa")?;
        let didsha1 = read_opt_field::<String>(members, "didsha1")?;
        let didmd5 = read_opt_field::<String>(members, "didmd5")?;
        let dpidsha1 = read_opt_field::<String>(members, "dpidsha1")?;
        let dpidmd5 = read_opt_field::<String>(members, "dpidmd5")?;
        let macsha1 = read_opt_field::<String>(members, "macsha1")?;
        let macmd5 = read_opt_field::<String>(members, "macmd5")?;
        let ext = read_raw_field(members, "ext");
        Ok(
            Device {
                geo,
                dnt,
                lmt,
                ua,
                ip,
                ipv6,
                devicetype,
                make,
                model,
                os,
                osv,
                hwv,
                w,
                h,
                ppi,
                pxratio,
                js,
                geofetch,
                flashver,
                language,
                carrier,
                mccmnc,
                connectiontype,
                ifa,
                didsha1,
                didmd5,
                dpidsha1,
                dpidmd5,
                macsha1,
                macmd5,
                ext,
            },
        )
    }

    proof fn lemma_round_trip(value: DeviceView) {
        Device::lemma_written_fields(value);
        let members = Device::encode_spec(value)->Object_0;
        lemma_opt_field_round_trip::<Geo>(members, "geo"@, value.geo);
        lemma_opt_field_round_trip::<Bool>(members, "dnt"@, value.dnt);
        lemma_opt_field_round_trip::<Bool>(members, "lmt"@, value.lmt);
        lemma_opt_field_round_trip::<String>(members, "ua"@, value.ua);
        lemma_opt_field_round_trip::<String>(members, "ip"@, value.ip);
        lemma_opt_field_round_trip::<String>(members, "ipv6"@, value.ipv6);
        lemma_opt_field_round_trip::<DeviceType>(members, "devicetype"@, value.devicetype);
        lemma_opt_field_round_trip::<String>(members, "make"@, value.make);
        lemma_opt_field_round_trip::<String>(members, "model"@, value.model);
        lemma_opt_field_round_trip::<String>(members, "os"@, value.os);
        lemma_opt_field_round_trip::<String>(members, "osv"@, value.osv);
        lemma_opt_field_round_trip::<String>(members, "hwv"@, value.hwv);
        lemma_opt_field_round_trip::<i32>(members, "w"@, value.w);
        lemma_opt_field_round_trip::<i32>(members, "h"@, value.h);
        lemma_opt_field_round_trip::<i32>(members, "ppi"@, value.ppi);
        lemma_opt_field_round_trip::<Number>(members, "pxratio"@, value.pxratio);
        lemma_opt_field_round_trip::<Bool>(members, "js"@, value.js);
        lemma_opt_field_round_trip::<Bool>(members, "geofetch"@, value.geofetch);
        lemma_opt_field_round_trip::<String>(members, "flashver"@, value.flashver);
        lemma_opt_field_round_trip::<String>(members, "language"@, value.language);
        lemma_opt_field_round_trip::<String>(members, "carrier"@, value.carrier);
        lemma_opt_field_round_trip::<String>(members, "mccmnc"@, value.mccmnc);
        lemma_opt_field_round_trip::<ConnectionType>(
            members,
            "connectiontype"@,
            value.connectiontype,
        );
        lemma_opt_field_round_trip::<String>(members, "ifa"@, value.ifa);
        lemma_opt_field_round_trip::<String>(members, "didsha1"@, value.didsha1);
        lemma_opt_field_round_trip::<String>(members, "didmd5"@, value.didmd5);
        lemma_opt_field_round_trip::<String>(members, "dpidsha1"@, value.dpidsha1);
        lemma_opt_field_round_trip::<String>(members, "dpidmd5"@, value.dpidmd5);
        lemma_opt_field_round_trip::<String>(members, "macsha1"@, value.macsha1);
        lemma_opt_field_round_trip::<String>(members, "macmd5"@, value.macmd5);
    }
}

impl Device {
    /// What stands under each key on the wire: the wire form of the field of
    /// that name, whatever it holds, and nothing at all where the field is
    /// absent.
    pub proof fn lemma_written_fields(value: DeviceView)
        ensures
            Device::encode_spec(value) matches JsonView::Object(members) && {
                &&& raw_field(members, "geo"@) == encode_opt::<Geo>(value.geo)
                &&& raw_field(members, "dnt"@) == encode_opt::<Bool>(value.dnt)
                &&& raw_field(members, "lmt"@) == encode_opt::<Bool>(value.lmt)
                &&& raw_field(members, "ua"@) == encode_opt::<String>(value.ua)
                &&& raw_field(members, "ip"@) == encode_opt::<String>(value.ip)
                &&& raw_field(members, "ipv6"@) == encode_opt::<String>(value.ipv6)
                &&& raw_field(members, "devicetype"@) == encode_opt::<DeviceType>(value.devicetype)
                &&& raw_field(members, "make"@) == encode_opt::<String>(value.make)
                &&& raw_field(members, "model"@) == encode_opt::<String>(value.model)
                &&& raw_field(members, "os"@) == encode_opt::<String>(value.os)
                &&& raw_field(members, "osv"@) == encode_opt::<String>(value.osv)
                &&& raw_field(members, "hwv"@) == encode_opt::<String>(value.hwv)
                &&& raw_field(members, "w"@) == encode_opt::<i32>(value.w)
                &&& raw_field(members, "h"@) == encode_opt::<i32>(value.h)
                &&& raw_field(members, "ppi"@) == encode_opt::<i32>(value.ppi)
                &&& raw_field(members, "pxratio"@) == encode_opt::<Number>(value.pxratio)
                &&& raw_field(members, "js"@) == encode_opt::<Bool>(value.js)
                &&& raw_field(members, "geofetch"@) == encode_opt::<Bool>(value.geofetch)
                &&& raw_field(members, "flashver"@) == encode_opt::<String>(value.flashver)
                &&& raw_field(members, "language"@) == encode_opt::<String>(value.language)
                &&& raw_field(members, "carrier"@) == encode_opt::<String>(value.carrier)
                &&& raw_field(members, "mccmnc"@) == encode_opt::<String>(value.mccmnc)
                &&& raw_field(members, "connectiontype"@)
                    == encode_opt::<ConnectionType>(value.connectiontype)
                &&& raw_field(members, "ifa"@) == encode_opt::<String>(value.ifa)
                &&& raw_field(members, "didsha1"@) == encode_opt::<String>(value.didsha1)
                &&& raw_field(members, "didmd5"@) == encode_opt::<String>(value.didmd5)
                &&& raw_field(members, "dpidsha1"@) == encode_opt::<String>(value.dpidsha1)
                &&& raw_field(members, "dpidmd5"@) == encode_opt::<String>(value.dpidmd5)
                &&& raw_field(members, "macsha1"@) == encode_opt::<String>(value.macsha1)
                &&& raw_field(members, "macmd5"@) == encode_opt::<String>(value.macmd5)
                &&& raw_field(members, "ext"@) == value.ext
            },
    {
        Members::lemma_lookup();
        reveal_strlit("geo");
        reveal_strlit("dnt");
        reveal_strlit("lmt");
        reveal_strlit("ua");
        reveal_strlit("ip");
        reveal_strlit("ipv6");
        reveal_strlit("devicetype");
        reveal_strlit("make");
        reveal_strlit("model");
        reveal_strlit("os");
        reveal_strlit("osv");
        reveal_strlit("hwv");
        reveal_strlit("w");
        reveal_strlit("h");
        reveal_strlit("ppi");
        reveal_strlit("pxratio");
        reveal_strlit("js");
        reveal_strlit("geofetch");
        reveal_strlit("flashver");
        reveal_strlit("language");
        reveal_strlit("carrier");
        reveal_strlit("mccmnc");
        reveal_strlit("connectiontype");
        reveal_strlit("ifa");
        reveal_strlit("didsha1");
        reveal_strlit("didmd5");
        reveal_strlit("dpidsha1");
        reveal_strlit("dpidmd5");
        reveal_strlit("macsha1");
        reveal_strlit("macmd5");
        reveal_strlit("ext");
        lemma_head("geo"@);
        lemma_head("dnt"@);
        lemma_head("lmt"@);
        lemma_head("ua"@);
        lemma_head("ip"@);
        lemma_head("ipv6"@);
        lemma_head("devicetype"@);
        lemma_head("make"@);
        lemma_head("model"@);
        lemma_head("os"@);
        lemma_head("osv"@);
        lemma_head("hwv"@);
        lemma_head("w"@);
        lemma_head("h"@);
        lemma_head("ppi"@);
        lemma_head("pxratio"@);
        lemma_head("js"@);
        lemma_head("geofetch"@);
        lemma_head("flashver"@);
        lemma_head("language"@);
        lemma_head("carrier"@);
        lemma_head("mccmnc"@);
        lemma_head("connectiontype"@);
        lemma_head("ifa"@);
        lemma_head("didsha1"@);
        lemma_head("didmd5"@);
        lemma_head("dpidsha1"@);
        lemma_head("dpidmd5"@);
        lemma_head("macsha1"@);
        lemma_head("macmd5"@);
        lemma_head("ext"@);
    }

    /// An optional field that is absent leaves no key on the wire, and a field
    /// that is present has its key, also where it holds zero, false or nothing.
    pub proof fn lemma_written_keys(value: DeviceView)
        ensures
            Device::encode_spec(value) matches JsonView::Object(members) && {
                &&& members.contains_key("geo"@) <==> value.geo is Some
                &&& members.contains_key("dnt"@) <==> value.dnt is Some
                &&& members.contains_key("lmt"@) <==> value.lmt is Some
                &&& members.contains_key("ua"@) <==> value.ua is Some
                &&& members.contains_key("ip"@) <==> value.ip is Some
                &&& members.contains_key("ipv6"@) <==> value.ipv6 is Some
                &&& members.contains_key("devicetype"@) <==> value.devicetype is Some
                &&& members.contains_key("make"@) <==> value.make is Some
                &&& members.contains_key("model"@) <==> value.model is Some
                &&& members.contains_key("os"@) <==> value.os is Some
                &&& members.contains_key("osv"@) <==> value.osv is Some
                &&& members.contains_key("hwv"@) <==> value.hwv is Some
                &&& members.contains_key("w"@) <==> value.w is Some
                &&& members.contains_key("h"@) <==> value.h is Some
                &&& members.contains_key("ppi"@) <==> value.ppi is Some
                &&& members.contains_key("pxratio"@) <==> value.pxratio is Some
                &&& members.contains_key("js"@) <==> value.js is Some
                &&& members.contains_key("geofetch"@) <==> value.geofetch is Some
                &&& members.contains_key("flashver"@) <==> value.flashver is Some
                &&& members.contains_key("language"@) <==> value.language is Some
                &&& members.contains_key("carrier"@) <==> value.carrier is Some
                &&& members.contains_key("mccmnc"@) <==> value.mccmnc is Some
                &&& members.contains_key("connectiontype"@) <==> value.connectiontype is Some
                &&& members.contains_key("ifa"@) <==> value.ifa is Some
                &&& members.contains_key("didsha1"@) <==> value.didsha1 is Some
                &&& members.contains_key("didmd5"@) <==> value.didmd5 is Some
                &&& members.contains_key("dpidsha1"@) <==> value.dpidsha1 is Some
                &&& members.contains_key("dpidmd5"@) <==> value.dpidmd5 is Some
                &&& members.contains_key("macsha1"@) <==> value.macsha1 is Some
                &&& members.contains_key("macmd5"@) <==> value.macmd5 is Some
                &&& members.contains_key("ext"@) <==> value.ext is Some
            },
    {
        Device::lemma_written_fields(value);
    }
}

impl Record for Device {
    open spec fn claims(key: Seq<char>) -> bool {
        ||| key == "geo"@
        ||| key == "dnt"@
        ||| key == "lmt"@
        ||| key == "ua"@
        ||| key == "ip"@
        ||| key == "ipv6"@
        ||| key == "devicetype"@
        ||| key == "make"@
        ||| key == "model"@
        ||| key == "os"@
        ||| key == "osv"@
        ||| key == "hwv"@
        ||| key == "w"@
        ||| key == "h"@
        ||| key == "ppi"@
        ||| key == "pxratio"@
        ||| key == "js"@
        ||| key == "geofetch"@
        ||| key == "flashver"@
        ||| key == "language"@
        ||| key == "carrier"@
        ||| key == "mccmnc"@
        ||| key == "connectiontype"@
        ||| key == "ifa"@
        ||| key == "didsha1"@
        ||| key == "didmd5"@
        ||| key == "dpidsha1"@
        ||| key == "dpidmd5"@
        ||| key == "macsha1"@
        ||| key == "macmd5"@
        ||| key == "ext"@
    }

    proof fn lemma_writes_claimed_keys(value: DeviceView) {
        Members::lemma_lookup();
        let members = Device::encode_spec(value)->Object_0;
        assert forall|key: Seq<char>| #[trigger] members.contains_key(key) implies Device::claims(
            key,
        ) by {
            assert(raw_field(members, key) is Some);
        }
    }

    proof fn lemma_unclaimed_key_is_passed_over(
        members: Map<Seq<char>, JsonView>,
        key: Seq<char>,
        value: JsonView,
    ) {
        lemma_other_key::<Geo>(members, "geo"@, key, value);
        lemma_other_key::<Bool>(members, "dnt"@, key, value);
        lemma_other_key::<Bool>(members, "lmt"@, key, value);
        lemma_other_key::<String>(members, "ua"@, key, value);
        lemma_other_key::<String>(members, "ip"@, key, value);
        lemma_other_key::<String>(members, "ipv6"@, key, value);
        lemma_other_key::<DeviceType>(members, "devicetype"@, key, value);
        lemma_other_key::<String>(members, "make"@, key, value);
        lemma_other_key::<String>(members, "model"@, key, value);
        lemma_other_key::<String>(members, "os"@, key, value);
        lemma_other_key::<String>(members, "osv"@, key, value);
        lemma_other_key::<String>(members, "hwv"@, key, value);
        lemma_other_key::<i32>(members, "w"@, key, value);
        lemma_other_key::<i32>(members, "h"@, key, value);
        lemma_other_key::<i32>(members, "ppi"@, key, value);
        lemma_other_key::<Number>(members, "pxratio"@, key, value);
        lemma_other_key::<Bool>(members, "js"@, key, value);
        lemma_other_key::<Bool>(members, "geofetch"@, key, value);
        lemma_other_key::<String>(members, "flashver"@, key, value);
        lemma_other_key::<String>(members, "language"@, key, value);
        lemma_other_key::<String>(members, "carrier"@, key, value);
        lemma_other_key::<String>(members, "mccmnc"@, key, value);
        lemma_other_key::<ConnectionType>(members, "connectiontype"@, key, value);
        lemma_other_key::<String>(members, "ifa"@, key, value);
        lemma_other_key::<String>(members, "didsha1"@, key, value);
        lemma_other_key::<String>(members, "didmd5"@, key, value);
        lemma_other_key::<String>(members, "dpidsha1"@, key, value);
        lemma_other_key::<String>(members, "dpidmd5"@, key, value);
        lemma_other_key::<String>(members, "macsha1"@, key, value);
        lemma_other_key::<String>(members, "macmd5"@, key, value);
        lemma_other_key_raw(members, "ext"@, key, value);
    }
}

/// A geographic location: of the device, where it stands under `Device`, or of
/// the user's home base, where it stands under `User`.
#[derive(Clone, Debug, PartialEq)]
pub struct Geo {
    /// Latitude from -90.0 to +90.0, where negative is south.
    pub lat: Option<Number>,
    /// Longitude from -180.0 to +180.0, where negative is west.
    pub lon: Option<Number>,
    /// Country using ISO-3166-1 Alpha-3.
    pub country: Option<String>,
    /// Region code using ISO-3166-2; 2-letter state code if USA.
    pub region: Option<String>,
    /// Region of a country using FIPS 10-4 notation. While OpenRTB supports this attribute,
    /// it has been withdrawn by NIST in 2008.
    pub regionfips104: Option<String>,
    /// Google metro code; similar to but not exactly Nielsen DMAs. See Appendix A for a
    /// link to the codes.
    pub metro: Option<String>,
    /// City using United Nations Code for Trade & Transport Locations. See Appendix A for a
    /// link to the codes.
    pub city: Option<String>,
    /// Zip/postal code.
    pub zip: Option<String>,
    /// Source of location data; recommended when passing lat/lon.
    pub type_: Option<LocationType>,
    /// Estimated location accuracy in meters; recommended when lat/lon are specified and
    /// derived from a device's location services (i.e., type = 1). Note that this is the
    /// accuracy as reported from the device.
    pub accuracy: Option<i32>,
    /// Number of seconds since this geolocation fix was established. Note that devices may
    /// cache location data across multiple fetches.
    pub lastfix: Option<i32>,
    /// Service or provider used to determine geolocation from IP address if applicable
    /// (i.e., type = 2).
    pub ipservice: Option<LocationService>,
    /// Local time as the number +/- of minutes from UTC.
    pub utcoffset: Option<i32>,
    /// Vendor extensions, carried as they are.
    pub ext: Option<Json>,
}

/// The mathematical value of a [`Geo`].
pub struct GeoView {
    pub lat: Option<NumberView>,
    pub lon: Option<NumberView>,
    pub country: Option<Seq<char>>,
    pub region: Option<Seq<char>>,
    pub regionfips104: Option<Seq<char>>,
    pub metro: Option<Seq<char>>,
    pub city: Option<Seq<char>>,
    pub zip: Option<Seq<char>>,
    pub type_: Option<LocationType>,
    pub accuracy: Option<i32>,
    pub lastfix: Option<i32>,
    pub ipservice: Option<LocationService>,
    pub utcoffset: Option<i32>,
    pub ext: Option<JsonView>,
}

impl DeepView for Geo {
    type V = GeoView;

    open spec fn deep_view(&self) -> GeoView {
        GeoView {
            lat: opt_view(self.lat),
            lon: opt_view(self.lon),
            country: opt_view(self.country),
            region: opt_view(self.region),
            regionfips104: opt_view(self.regionfips104),
            metro: opt_view(self.metro),
            city: opt_view(self.city),
            zip: opt_view(self.zip),
            type_: opt_view(self.type_),
            accuracy: opt_view(self.accuracy),
            lastfix: opt_view(self.lastfix),
            ipservice: opt_view(self.ipservice),
            utcoffset: opt_view(self.utcoffset),
            ext: opt_view(self.ext),
        }
    }
}

impl GeoView {
    /// The value in which every optional field is absent and every required
    /// field is empty or zero.
    pub open spec fn empty() -> GeoView {
        GeoView {
            lat: None,
            lon: None,
            country: None,
            region: None,
            regionfips104: None,
            metro: None,
            city: None,
            zip: None,
            type_: None,
            accuracy: None,
            lastfix: None,
            ipservice: None,
            utcoffset: None,
            ext: None,
        }
    }
}

impl Default for Geo {
    fn default() -> (value: Geo)
        ensures
            value.deep_view() == GeoView::empty(),
    {
        let value = Geo {
            lat: None,
            lon: None,
            country: None,
            region: None,
            regionfips104: None,
            metro: None,
            city: None,
            zip: None,
            type_: None,
            accuracy: None,
            lastfix: None,
            ipservice: None,
            utcoffset: None,
            ext: None,
        };
        proof {
            reveal(opt_view);
        }
        value
    }
}

impl Wire for Geo {
    open spec fn encode_spec(value: GeoView) -> JsonView {
        Members::empty()
            .with_opt("lat"@, encode_opt::<Number>(value.lat))
            .with_opt("lon"@, encode_opt::<Number>(value.lon))
            .with_opt("country"@, encode_opt::<String>(value.country))
            .with_opt("region"@, encode_opt::<String>(value.region))
            .with_opt("regionfips104"@, encode_opt::<String>(value.regionfips104))
            .with_opt("metro"@, encode_opt::<String>(value.metro))
            .with_opt("city"@, encode_opt::<String>(value.city))
            .with_opt("zip"@, encode_opt::<String>(value.zip))
            .with_opt("type"@, encode_opt::<LocationType>(value.type_))
            .with_opt("accuracy"@, encode_opt::<i32>(value.accuracy))
            .with_opt("lastfix"@, encode_opt::<i32>(value.lastfix))
            .with_opt("ipservice"@, encode_opt::<LocationService>(value.ipservice))
            .with_opt("utcoffset"@, encode_opt::<i32>(value.utcoffset))
            .with_opt("ext"@, value.ext)
            .json()
    }

    open spec fn decode_spec(doc: JsonView) -> Result<GeoView, DecodeErrorView> {
        match doc {
            JsonView::Object(members) => {
                let lat = opt_field::<Number>(members, "lat"@);
                let lon = opt_field::<Number>(members, "lon"@);
                let country = opt_field::<String>(members, "country"@);
                let region = opt_field::<String>(members, "region"@);
                let regionfips104 = opt_field::<String>(members, "regionfips104"@);
                let metro = opt_field::<String>(members, "metro"@);
                let city = opt_field::<String>(members, "city"@);
                let zip = opt_field::<String>(members, "zip"@);
                let type_ = opt_field::<LocationType>(members, "type"@);
                let accuracy = opt_field::<i32>(members, "accuracy"@);
                let lastfix = opt_field::<i32>(members, "lastfix"@);
                let ipservice = opt_field::<LocationService>(members, "ipservice"@);
                let utcoffset = opt_field::<i32>(members, "utcoffset"@);
                let ext = raw_field(members, "ext"@);
                if lat is Err {
                    Err(lat->Err_0)
                } else if lon is Err {
                    Err(lon->Err_0)
                } else if country is Err {
                    Err(country->Err_0)
                } else if region is Err {
                    Err(region->Err_0)
                } else if regionfips104 is Err {
                    Err(regionfips104->Err_0)
                } else if metro is Err {
                    Err(metro->Err_0)
                } else if city is Err {
                    Err(city->Err_0)
                } else if zip is Err {
                    Err(zip->Err_0)
                } else if type_ is Err {
                    Err(type_->Err_0)
                } else if accuracy is Err {
                    Err(accuracy->Err_0)
                } else if lastfix is Err {
                    Err(lastfix->Err_0)
                } else if ipservice is Err {
                    Err(ipservice->Err_0)
                } else if utcoffset is Err {
                    Err(utcoffset->Err_0)
                } else {
                    Ok(
                        GeoView {
                            lat: lat->Ok_0,
                            lon: lon->Ok_0,
                            country: country->Ok_0,
                            region: region->Ok_0,
                            regionfips104: regionfips104->Ok_0,
                            metro: metro->Ok_0,
                            city: city->Ok_0,
                            zip: zip->Ok_0,
                            type_: type_->Ok_0,
                            accuracy: accuracy->Ok_0,
                            lastfix: lastfix->Ok_0,
                            ipservice: ipservice->Ok_0,
                            utcoffset: utcoffset->Ok_0,
                            ext,
                        },
                    )
                }
            },
            _ => wrong_type(),
        }
    }

    fn encode(&self) -> (doc: Json) {
        let mut object = ObjectWriter::new();
        object.opt_field("lat", &self.lat);
        object.opt_field("lon", &self.lon);
        object.opt_field("country", &self.country);
        object.opt_field("region", &self.region);
        object.opt_field("regionfips104", &self.regionfips104);
        object.opt_field("metro", &self.metro);
        object.opt_field("city", &self.city);
        object.opt_field("zip", &self.zip);
        object.opt_field("type", &self.type_);
        object.opt_field("accuracy", &self.accuracy);
        object.opt_field("lastfix", &self.lastfix);
        object.opt_field("ipservice", &self.ipservice);
        object.opt_field("utcoffset", &self.utcoffset);
        object.raw_field("ext", &self.ext);
        object.finish()
    }

    fn decode(doc: &Json) -> (result: Result<Geo, DecodeError>) {
        let members = read_members(doc)?;
        let lat = read_opt_field::<Number>(members, "lat")?;
        let lon = read_opt_field::<Number>(members, "lon")?;
        let country = read_opt_field::<String>(members, "country")?;
        let region = read_opt_field::<String>(members, "region")?;
        let regionfips104 = read_opt_field::<String>(members, "regionfips104")?;
        let metro = read_opt_field::<String>(members, "metro")?;
        let city = read_opt_field::<String>(members, "city")?;
        let zip = read_opt_field::<String>(members, "zip")?;
        let type_ = read_opt_field::<LocationType>(members, "type")?;
        let accuracy = read_opt_field::<i32>(members, "accuracy")?;
        let lastfix = read_opt_field::<i32>(members, "lastfix")?;
        let ipservice = read_opt_field::<LocationService>(members, "ipservice")?;
        let utcoffset = read_opt_field::<i32>(members, "utcoffset")?;
        let ext = read_raw_field(members, "ext");
        Ok(
            Geo {
                lat,
                lon,
                country,
                region,
                regionfips104,
                metro,
                city,
                zip,
                type_,
                accuracy,
                lastfix,
                ipservice,
                utcoffset,
                ext,
            },
        )
    }

    proof fn lemma_round_trip(value: GeoView) {
        Geo::lemma_written_fields(value);
        let members = Geo::encode_spec(value)->Object_0;
        lemma_opt_field_round_trip::<Number>(members, "lat"@, value.lat);
        lemma_opt_field_round_trip::<Number>(members, "lon"@, value.lon);
        lemma_opt_field_round_trip::<String>(members, "country"@, value.country);
        lemma_opt_field_round_trip::<String>(members, "region"@, value.region);
        lemma_opt_field_round_trip::<String>(members, "regionfips104"@, value.regionfips104);
        lemma_opt_field_round_trip::<String>(members, "metro"@, value.metro);
        lemma_opt_field_round_trip::<String>(members, "city"@, value.city);
        lemma_opt_field_round_trip::<String>(members, "zip"@, value.zip);
        lemma_opt_field_round_trip::<LocationType>(members, "type"@, value.type_);
        lemma_opt_field_round_trip::<i32>(members, "accuracy"@, value.accuracy);
        lemma_opt_field_round_trip::<i32>(members, "lastfix"@, value.lastfix);
        lemma_opt_field_round_trip::<LocationService>(members, "ipservice"@, value.ipservice);
        lemma_opt_field_round_trip::<i32>(members, "utcoffset"@, value.utcoffset);
    }
}

impl Geo {
    /// What stands under each key on the wire: the wire form of the field of
    /// that name, whatever it holds, and nothing at all where the field is
    /// absent.
    pub proof fn lemma_written_fields(value: GeoView)
        ensures
            Geo::encode_spec(value) matches JsonView::Object(members) && {
                &&& raw_field(members, "lat"@) == encode_opt::<Number>(value.lat)
                &&& raw_field(members, "lon"@) == encode_opt::<Number>(value.lon)
                &&& raw_field(members, "country"@) == encode_opt::<String>(value.country)
                &&& raw_field(members, "region"@) == encode_opt::<String>(value.region)
                &&& raw_field(members, "regionfips104"@)
                    == encode_opt::<String>(value.regionfips104)
                &&& raw_field(members, "metro"@) == encode_opt::<String>(value.metro)
                &&& raw_field(members, "city"@) == encode_opt::<String>(value.city)
                &&& raw_field(members, "zip"@) == encode_opt::<String>(value.zip)
                &&& raw_field(members, "type"@) == encode_opt::<LocationType>(value.type_)
                &&& raw_field(members, "accuracy"@) == encode_opt::<i32>(value.accuracy)
                &&& raw_field(members, "lastfix"@) == encode_opt::<i32>(value.lastfix)
                &&& raw_field(members, "ipservice"@)
                    == encode_opt::<LocationService>(value.ipservice)
                &&& raw_field(members, "utcoffset"@) == encode_opt::<i32>(value.utcoffset)
                &&& raw_field(members, "ext"@) == value.ext
            },
    {
        Members::lemma_lookup();
        reveal_strlit("lat");
        reveal_strlit("lon");
        reveal_strlit("country");
        reveal_strlit("region");
        reveal_strlit("regionfips104");
        reveal_strlit("metro");
        reveal_strlit("city");
        reveal_strlit("zip");
        reveal_strlit("type");
        reveal_strlit("accuracy");
        reveal_strlit("lastfix");
        reveal_strlit("ipservice");
        reveal_strlit("utcoffset");
        reveal_strlit("ext");
        lemma_head("lat"@);
        lemma_head("lon"@);
        lemma_head("country"@);
        lemma_head("region"@);
        lemma_head("regionfips104"@);
        lemma_head("metro"@);
        lemma_head("city"@);
        lemma_head("zip"@);
        lemma_head("type"@);
        lemma_head("accuracy"@);
        lemma_head("lastfix"@);
        lemma_head("ipservice"@);
        lemma_head("utcoffset"@);
        lemma_head("ext"@);
    }

    /// An optional field that is absent leaves no key on the wire, and a field
    /// that is present has its key, also where it holds zero, false or nothing.
    pub proof fn lemma_written_keys(value: GeoView)
        ensures
            Geo::encode_spec(value) matches JsonView::Object(members) && {
                &&& members.contains_key("lat"@) <==> value.lat is Some
                &&& members.contains_key("lon"@) <==> value.lon is Some
                &&& members.contains_key("country"@) <==> value.country is Some
                &&& members.contains_key("region"@) <==> value.region is Some
                &&& members.contains_key("regionfips104"@) <==> value.regionfips104 is Some
                &&& members.contains_key("metro"@) <==> value.metro is Some
                &&& members.contains_key("city"@) <==> value.city is Some
                &&& members.contains_key("zip"@) <==> value.zip is Some
                &&& members.contains_key("type"@) <==> value.type_ is Some
                &&& members.contains_key("accuracy"@) <==> value.accuracy is Some
                &&& members.contains_key("lastfix"@) <==> value.lastfix is Some
                &&& members.contains_key("ipservice"@) <==> value.ipservice is Some
                &&& members.contains_key("utcoffset"@) <==> value.utcoffset is Some
                &&& members.contains_key("ext"@) <==> value.ext is Some
            },
    {
        Geo::lemma_written_fields(value);
    }
}

impl Record for Geo {
    open spec fn claims(key: Seq<char>) -> bool {
        ||| key == "lat"@
        ||| key == "lon"@
        ||| key == "country"@
        ||| key == "region"@
        ||| key == "regionfips104"@
        ||| key == "metro"@
        ||| key == "city"@
        ||| key == "zip"@
        ||| key == "type"@
        ||| key == "accuracy"@
        ||| key == "lastfix"@
        ||| key == "ipservice"@
        ||| key == "utcoffset"@
        ||| key == "ext"@
    }

    proof fn lemma_writes_claimed_keys(value: GeoView) {
        Members::lemma_lookup();
        let members = Geo::encode_spec(value)->Object_0;
        assert forall|key: Seq<char>| #[trigger] members.contains_key(key) implies Geo::claims(
            key,
        ) by {
            assert(raw_field(members, key) is Some);
        }
    }

    proof fn lemma_unclaimed_key_is_passed_over(
        members: Map<Seq<char>, JsonView>,
        key: Seq<char>,
        value: JsonView,
    ) {
        lemma_other_key::<Number>(members, "lat"@, key, value);
        lemma_other_key::<Number>(members, "lon"@, key, value);
        lemma_other_key::<String>(members, "country"@, key, value);
        lemma_other_key::<String>(members, "region"@, key, value);
        lemma_other_key::<String>(members, "regionfips104"@, key, value);
        lemma_other_key::<String>(members, "metro"@, key, value);
        lemma_other_key::<String>(members, "city"@, key, value);
        lemma_other_key::<String>(members, "zip"@, key, value);
        lemma_other_key::<LocationType>(members, "type"@, key, value);
        lemma_other_key::<i32>(members, "accuracy"@, key, value);
        lemma_other_key::<i32>(members, "lastfix"@, key, value);
        lemma_other_key::<LocationService>(members, "ipservice"@, key, value);
        lemma_other_key::<i32>(members, "utcoffset"@, key, value);
        lemma_other_key_raw(members, "ext"@, key, value);
    }
}

} // verus!
