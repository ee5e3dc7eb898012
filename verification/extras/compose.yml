# Compose stack the lifecycle tools drive on Docker.
# `HA_IMAGE` is set by the update tool to the channel's image, and
# `HA_CONFIG` by the install tool to the host path of the /config volume;
# both fall back to the defaults below when unset.
services:
  homeassistant:
    container_name: homeassistant
    image: ${HA_IMAGE:-ghcr.io/home-assistant/home-assistant:stable}
    network_mode: host
    privileged: true
    restart: unless-stopped
    volumes:
      - ${HA_CONFIG:-/opt/homeassistant/config}:/config
      - /etc/localtime:/etc/localtime:ro
      - /run/dbus:/run/dbus:ro
