"""Prints the colour-matching-function table constants of src/observer_data.rs:
the CIE 1931 2-degree and CIE 1964 10-degree observers approximated by the
analytic fits of Wyman, Sloan and Shirley, "Simple Analytic Approximations to
the CIE XYZ Color Matching Functions" (JCGT 2013), sampled at 1 nm from
360 nm to 830 nm, as binary64 bit patterns.

The 1931 curves use the multi-lobe piecewise Gaussian fit, scaled together so
that y-bar is exactly 1 at 555 nm as the photopic luminous efficiency
function is defined; the 1964 curves use the single-lobe fit unscaled. Every
value is rounded to seven significant digits.

Run: python3 extras/observer_tables.py
"""
import math
import struct


def g(x, mu, s1, s2):
    s = s1 if x < mu else s2
    t = (x - mu) / s
    return math.exp(-0.5 * t * t)


def cie1931(lam):
    x = (1.056 * g(lam, 599.8, 37.9, 31.0) + 0.362 * g(lam, 442.0, 16.0, 26.7)
         - 0.065 * g(lam, 501.1, 20.4, 26.2))
    y = 0.821 * g(lam, 568.8, 46.9, 40.5) + 0.286 * g(lam, 530.9, 16.3, 31.1)
    z = 1.217 * g(lam, 437.0, 11.8, 36.0) + 0.681 * g(lam, 459.0, 26.0, 13.8)
    return x, y, z


def cie1964(lam):
    x = (0.398 * math.exp(-1250.0 * math.log((lam + 570.1) / 1014.0) ** 2)
         + 1.132 * math.exp(-234.0 * math.log((1338.0 - lam) / 743.5) ** 2))
    y = 1.011 * math.exp(-0.5 * ((lam - 556.1) / 46.14) ** 2)
    z = 2.060 * math.exp(-32.0 * math.log((lam - 265.8) / 180.4) ** 2)
    return x, y, z


def table(fit, scaled):
    scale = fit(555.0)[1] if scaled else 1.0
    return [tuple(float("%.6e" % (v / scale)) for v in fit(float(lam)))
            for lam in range(360, 831)]


def bits(v):
    return struct.unpack("<Q", struct.pack("<d", v))[0]


def emit(name, doc, values):
    out = ["/// %s" % doc, "pub const %s: [u64; 471] = [" % name]
    for i in range(0, len(values), 6):
        out.append("    " + " ".join("0x%016x," % bits(v) for v in values[i:i + 6]))
    out.append("];")
    return "\n".join(out) + "\n"


def main():
    parts = []
    for prefix, fit, scaled, label in (
            ("CIE1931_2", cie1931, True, "1931 2-degree"),
            ("CIE1964_10", cie1964, False, "1964 10-degree")):
        rows = table(fit, scaled)
        for idx, comp in enumerate(("X_BAR", "Y_BAR", "Z_BAR")):
            parts.append(emit("%s_%s" % (prefix, comp),
                              "%s of the %s observer, 360 nm to 830 nm." % (
                                  comp.replace("_", "-").lower(), label),
                              [r[idx] for r in rows]))
    print("\n".join(parts), end="")


if __name__ == "__main__":
    main()
